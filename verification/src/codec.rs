//! The wire codec: every inbound frame decodes to one envelope
//! ([`CensusMessage`]), dispatched on its `type` discriminator; every
//! outbound control action ([`Action`]) encodes to one text frame. Encoding
//! is total; decoding says exactly which failures arise on which texts.

use crate::decoder::{decode_event, obj_get, spec_decode_event, spec_get, spec_num_field, num_field};
use crate::error::{DecodeError, FieldParseError, MalformedCause};
use crate::event::{Event, EventView};
use crate::json::{
    json_view, json_view_members, json_view_seq, parse_text, render, spec_parse_json, spec_render,
    JsonSpec, JsonValue,
};
use crate::subscription::{
    char_sub_json, event_sub_json, spec_char_sub_json, spec_event_sub_json, spec_world_sub_json,
    world_sub_json, CharacterSubscription, CharacterSubscriptionView, EventSubscription,
    EventSubscriptionView, Service, SubscriptionSettings, SubscriptionSettingsView,
    WorldSubscription, WorldSubscriptionView,
};
use crate::text::string_eq_str;
use vstd::prelude::*;
use vstd::string::StringExecFns;

verus! {

broadcast use {vstd::std_specs::vec::group_vec_axioms, vstd::seq::group_seq_axioms};

/// The server's echo of a confirmed subscription.
#[derive(Clone, PartialEq, Debug)]
pub struct Subscription {
    pub character_count: u64,
    pub event_names: Vec<String>,
    pub logical_and_characters_with_worlds: bool,
    pub worlds: Vec<String>,
}

/// The mathematical value of a [`Subscription`].
pub struct SubscriptionView {
    pub character_count: u64,
    pub event_names: Seq<Seq<char>>,
    pub logical_and_characters_with_worlds: bool,
    pub worlds: Seq<Seq<char>>,
}

/// The character sequences of a vector of strings.
pub open spec fn strings_view(ss: Seq<String>) -> Seq<Seq<char>> {
    Seq::new(ss.len(), |k: int| ss[k]@)
}

/// The character-sequence pairs of a vector of string pairs.
pub open spec fn string_pairs_view(ps: Seq<(String, String)>) -> Seq<(Seq<char>, Seq<char>)> {
    Seq::new(ps.len(), |k: int| (ps[k].0@, ps[k].1@))
}

impl View for Subscription {
    type V = SubscriptionView;

    open spec fn view(&self) -> SubscriptionView {
        SubscriptionView {
            character_count: self.character_count,
            event_names: strings_view(self.event_names@),
            logical_and_characters_with_worlds: self.logical_and_characters_with_worlds,
            worlds: strings_view(self.worlds@),
        }
    }
}

/// One decoded inbound frame.
#[derive(Clone, PartialEq, Debug)]
pub enum CensusMessage {
    /// The transport-level session announced its state; `connected` true is
    /// the handshake that asks for the subscription to be (re)sent.
    ConnectionStateChanged { connected: bool },
    /// The periodic heartbeat: which event-server endpoints are up.
    Heartbeat { online: Vec<(String, String)> },
    /// A domain event for the consumer.
    ServiceMessage { payload: Event },
    /// The push service itself came up or went down.
    ServiceStateChanged { online: bool, detail: String },
    /// The server confirmed a subscription.
    Subscription { subscription: Subscription },
}

/// The mathematical value of a [`CensusMessage`].
pub enum CensusMessageView {
    ConnectionStateChanged { connected: bool },
    Heartbeat { online: Seq<(Seq<char>, Seq<char>)> },
    ServiceMessage { payload: EventView },
    ServiceStateChanged { online: bool, detail: Seq<char> },
    Subscription { subscription: SubscriptionView },
}

impl View for CensusMessage {
    type V = CensusMessageView;

    open spec fn view(&self) -> CensusMessageView {
        match self {
            CensusMessage::ConnectionStateChanged { connected } => {
                CensusMessageView::ConnectionStateChanged { connected: *connected }
            },
            CensusMessage::Heartbeat { online } => {
                CensusMessageView::Heartbeat { online: string_pairs_view(online@) }
            },
            CensusMessage::ServiceMessage { payload } => {
                CensusMessageView::ServiceMessage { payload: payload@ }
            },
            CensusMessage::ServiceStateChanged { online, detail } => {
                CensusMessageView::ServiceStateChanged { online: *online, detail: detail@ }
            },
            CensusMessage::Subscription { subscription } => {
                CensusMessageView::Subscription { subscription: subscription@ }
            },
        }
    }
}

/// A boolean-from-string field: exactly the literals `true` or `false`.
pub open spec fn spec_boolstr_field(ms: Seq<(Seq<char>, JsonSpec)>, key: Seq<char>) -> Result<
    bool,
    MalformedCause,
> {
    match spec_get(ms, key) {
        None => Err(MalformedCause::MissingField),
        Some(j) => match j {
            JsonSpec::Str(s) => if s == "true"@ {
                Ok(true)
            } else if s == "false"@ {
                Ok(false)
            } else {
                Err(MalformedCause::Field(FieldParseError::InvalidBoolean))
            },
            _ => Err(MalformedCause::WrongFieldShape),
        },
    }
}

/// Reads a boolean-from-string field.
pub fn boolstr_field(ps: &Vec<(String, JsonValue)>, key: &str) -> (r: Result<
    bool,
    MalformedCause,
>)
    ensures
        r == spec_boolstr_field(json_view_members(ps@), key@),
{
    match obj_get(ps, key) {
        None => Err(MalformedCause::MissingField),
        Some(v) => match v {
            JsonValue::Str(s) => {
                if string_eq_str(s, "true") {
                    Ok(true)
                } else if string_eq_str(s, "false") {
                    Ok(false)
                } else {
                    Err(MalformedCause::Field(FieldParseError::InvalidBoolean))
                }
            },
            _ => Err(MalformedCause::WrongFieldShape),
        },
    }
}

/// A plain wire-boolean field.
pub open spec fn spec_bool_field(ms: Seq<(Seq<char>, JsonSpec)>, key: Seq<char>) -> Result<
    bool,
    MalformedCause,
> {
    match spec_get(ms, key) {
        None => Err(MalformedCause::MissingField),
        Some(j) => match j {
            JsonSpec::Bool(b) => Ok(b),
            _ => Err(MalformedCause::WrongFieldShape),
        },
    }
}

/// Reads a plain wire-boolean field.
pub fn bool_field(ps: &Vec<(String, JsonValue)>, key: &str) -> (r: Result<bool, MalformedCause>)
    ensures
        r == spec_bool_field(json_view_members(ps@), key@),
{
    match obj_get(ps, key) {
        None => Err(MalformedCause::MissingField),
        Some(v) => match v {
            JsonValue::Bool(b) => Ok(*b),
            _ => Err(MalformedCause::WrongFieldShape),
        },
    }
}

/// What reading an array of strings yields: every element must be a
/// string.
pub open spec fn spec_str_array(xs: Seq<JsonSpec>) -> Result<Seq<Seq<char>>, MalformedCause>
    decreases xs.len(),
{
    if xs.len() == 0 {
        Ok(Seq::empty())
    } else {
        match xs[0] {
            JsonSpec::Str(s) => match spec_str_array(xs.drop_first()) {
                Ok(rest) => Ok(seq![s] + rest),
                Err(e) => Err(e),
            },
            _ => Err(MalformedCause::WrongFieldShape),
        }
    }
}

/// Reads an array of strings.
pub fn str_array(xs: &Vec<JsonValue>) -> (r: Result<Vec<String>, MalformedCause>)
    ensures
        match r {
            Ok(out) => spec_str_array(json_view_seq(xs@)) == Ok::<_, MalformedCause>(
                strings_view(out@),
            ),
            Err(e) => spec_str_array(json_view_seq(xs@)) == Err::<Seq<Seq<char>>, _>(e),
        },
{
    let ghost full = json_view_seq(xs@);
    let mut out: Vec<String> = Vec::new();
    let mut i: usize = 0;
    proof {
        assert(full.skip(0) =~= full);
        match spec_str_array(full) {
            Ok(rest) => {
                assert(strings_view(out@) + rest =~= rest);
            },
            Err(_) => {},
        }
    }
    while i < xs.len()
        invariant
            0 <= i <= xs@.len(),
            full == json_view_seq(xs@),
            spec_str_array(full) == match spec_str_array(full.skip(i as int)) {
                Ok(rest) => Ok::<_, MalformedCause>(strings_view(out@) + rest),
                Err(e) => Err::<Seq<Seq<char>>, _>(e),
            },
        decreases xs@.len() - i,
    {
        proof {
            assert(full.skip(i as int)[0] == full[i as int]);
            assert(full.skip(i as int).drop_first() =~= full.skip(i + 1));
        }
        let s = match &xs[i] {
            JsonValue::Str(s) => s.clone(),
            _ => {
                return Err(MalformedCause::WrongFieldShape);
            },
        };
        let ghost prev = out@;
        let ghost pushed = s;
        out.push(s);
        i = i + 1;
        proof {
            assert(out@ == prev.push(pushed));
            assert(prev.push(pushed).len() == prev.len() + 1);
            assert forall|k: int| 0 <= k < out@.len() implies strings_view(out@)[k] == (
            if k < prev.len() {
                strings_view(prev)[k]
            } else {
                pushed@
            }) by {
                assert(out@[k] == prev.push(pushed)[k]);
            }
            match spec_str_array(full.skip(i as int)) {
                Ok(rest) => {
                    assert(strings_view(out@) =~= strings_view(prev).push(pushed@));
                    assert(strings_view(prev) + (seq![pushed@] + rest) =~= strings_view(out@)
                        + rest);
                },
                Err(_) => {},
            }
        }
    }
    proof {
        assert(full.skip(i as int) =~= Seq::<JsonSpec>::empty());
        assert(spec_str_array(full.skip(i as int)) == Ok::<_, MalformedCause>(
            Seq::<Seq<char>>::empty(),
        ));
        match spec_str_array(full) {
            Ok(rest) => {},
            Err(_) => {},
        }
        assert(strings_view(out@) + Seq::<Seq<char>>::empty() =~= strings_view(out@));
    }
    Ok(out)
}

/// What reading a heartbeat's online map yields: each member's value must
/// be a string; the pairs keep their wire order.
pub open spec fn spec_online_pairs(ms: Seq<(Seq<char>, JsonSpec)>) -> Result<
    Seq<(Seq<char>, Seq<char>)>,
    MalformedCause,
>
    decreases ms.len(),
{
    if ms.len() == 0 {
        Ok(Seq::empty())
    } else {
        match ms[0].1 {
            JsonSpec::Str(s) => match spec_online_pairs(ms.drop_first()) {
                Ok(rest) => Ok(seq![(ms[0].0, s)] + rest),
                Err(e) => Err(e),
            },
            _ => Err(MalformedCause::WrongFieldShape),
        }
    }
}

/// Reads a heartbeat's online map as ordered pairs.
pub fn online_pairs(ps: &Vec<(String, JsonValue)>) -> (r: Result<
    Vec<(String, String)>,
    MalformedCause,
>)
    ensures
        match r {
            Ok(out) => spec_online_pairs(json_view_members(ps@)) == Ok::<_, MalformedCause>(
                string_pairs_view(out@),
            ),
            Err(e) => spec_online_pairs(json_view_members(ps@)) == Err::<
                Seq<(Seq<char>, Seq<char>)>,
                _,
            >(e),
        },
{
    let ghost full = json_view_members(ps@);
    let mut out: Vec<(String, String)> = Vec::new();
    let mut i: usize = 0;
    proof {
        assert(full.skip(0) =~= full);
        match spec_online_pairs(full) {
            Ok(rest) => {
                assert(string_pairs_view(out@) + rest =~= rest);
            },
            Err(_) => {},
        }
    }
    while i < ps.len()
        invariant
            0 <= i <= ps@.len(),
            full == json_view_members(ps@),
            spec_online_pairs(full) == match spec_online_pairs(full.skip(i as int)) {
                Ok(rest) => Ok::<_, MalformedCause>(string_pairs_view(out@) + rest),
                Err(e) => Err::<Seq<(Seq<char>, Seq<char>)>, _>(e),
            },
        decreases ps@.len() - i,
    {
        proof {
            assert(full.skip(i as int)[0] == full[i as int]);
            assert(full.skip(i as int).drop_first() =~= full.skip(i + 1));
        }
        let s = match &ps[i].1 {
            JsonValue::Str(s) => s.clone(),
            _ => {
                return Err(MalformedCause::WrongFieldShape);
            },
        };
        let key = ps[i].0.clone();
        let ghost prev = out@;
        let ghost pushed = (key, s);
        out.push((key, s));
        i = i + 1;
        proof {
            assert(out@ == prev.push(pushed));
            assert(prev.push(pushed).len() == prev.len() + 1);
            assert forall|k: int| 0 <= k < out@.len() implies string_pairs_view(out@)[k] == (
            if k < prev.len() {
                string_pairs_view(prev)[k]
            } else {
                (pushed.0@, pushed.1@)
            }) by {
                assert(out@[k] == prev.push(pushed)[k]);
            }
            match spec_online_pairs(full.skip(i as int)) {
                Ok(rest) => {
                    assert(string_pairs_view(out@) =~= string_pairs_view(prev).push(
                        (pushed.0@, pushed.1@),
                    ));
                    assert(string_pairs_view(prev) + (seq![(pushed.0@, pushed.1@)] + rest)
                        =~= string_pairs_view(out@) + rest);
                },
                Err(_) => {},
            }
        }
    }
    proof {
        assert(full.skip(i as int) =~= Seq::<(Seq<char>, JsonSpec)>::empty());
        assert(string_pairs_view(out@) + Seq::<(Seq<char>, Seq<char>)>::empty()
            =~= string_pairs_view(out@));
    }
    Ok(out)
}

/// What decoding a subscription confirmation yields.
pub open spec fn spec_decode_subscription(ms: Seq<(Seq<char>, JsonSpec)>) -> Result<
    SubscriptionView,
    MalformedCause,
> {
    match spec_num_field(ms, "characterCount"@) {
        Err(e) => Err(e),
        Ok(count) => match spec_get(ms, "eventNames"@) {
            None => Err(MalformedCause::MissingField),
            Some(JsonSpec::Arr(en)) => match spec_str_array(en) {
                Err(e) => Err(e),
                Ok(event_names) => match spec_bool_field(
                    ms,
                    "logicalAndCharactersWithWorlds"@,
                ) {
                    Err(e) => Err(e),
                    Ok(law) => match spec_get(ms, "worlds"@) {
                        None => Err(MalformedCause::MissingField),
                        Some(JsonSpec::Arr(ws)) => match spec_str_array(ws) {
                            Err(e) => Err(e),
                            Ok(worlds) => Ok(
                                SubscriptionView {
                                    character_count: count,
                                    event_names,
                                    logical_and_characters_with_worlds: law,
                                    worlds,
                                },
                            ),
                        },
                        Some(_) => Err(MalformedCause::WrongFieldShape),
                    },
                },
            },
            Some(_) => Err(MalformedCause::WrongFieldShape),
        },
    }
}

/// Decodes a subscription confirmation.
fn decode_subscription(ps: &Vec<(String, JsonValue)>) -> (r: Result<Subscription, MalformedCause>)
    ensures
        match r {
            Ok(s) => spec_decode_subscription(json_view_members(ps@)) == Ok::<_, MalformedCause>(
                s@,
            ),
            Err(e) => spec_decode_subscription(json_view_members(ps@)) == Err::<
                SubscriptionView,
                _,
            >(e),
        },
{
    let character_count = num_field(ps, "characterCount")?;
    let event_names = match obj_get(ps, "eventNames") {
        None => {
            return Err(MalformedCause::MissingField);
        },
        Some(v) => match v {
            JsonValue::Arr(en) => {
                proof {
                    assert(json_view(*v)->Arr_0 =~= json_view_seq(en@));
                }
                str_array(en)?
            },
            _ => {
                return Err(MalformedCause::WrongFieldShape);
            },
        },
    };
    let logical_and_characters_with_worlds = bool_field(ps, "logicalAndCharactersWithWorlds")?;
    let worlds = match obj_get(ps, "worlds") {
        None => {
            return Err(MalformedCause::MissingField);
        },
        Some(v) => match v {
            JsonValue::Arr(ws) => {
                proof {
                    assert(json_view(*v)->Arr_0 =~= json_view_seq(ws@));
                }
                str_array(ws)?
            },
            _ => {
                return Err(MalformedCause::WrongFieldShape);
            },
        },
    };
    Ok(
        Subscription {
            character_count,
            event_names,
            logical_and_characters_with_worlds,
            worlds,
        },
    )
}

/// What decoding one frame of text yields: the text must be one wire
/// object; its `type` field picks the envelope kind; an unknown kind is
/// refused as an unknown discriminator; each kind's fields are then read as
/// that kind demands. A service message carries its event decode's verdict
/// through unchanged.
pub open spec fn spec_decode_message(s: Seq<char>) -> Result<CensusMessageView, DecodeError> {
    match spec_parse_json(s) {
        None => Err(DecodeError::MalformedPayload(MalformedCause::NotJson)),
        Some(j) => match j {
            JsonSpec::Obj(ms) => match spec_get(ms, "type"@) {
                None => Err(DecodeError::MalformedPayload(MalformedCause::MissingDiscriminator)),
                Some(t) => match t {
                    JsonSpec::Str(tag) => spec_decode_message_tagged(ms, tag),
                    _ => Err(DecodeError::MalformedPayload(MalformedCause::BadDiscriminator)),
                },
            },
            _ => Err(DecodeError::MalformedPayload(MalformedCause::NotAnObject)),
        },
    }
}

/// What decoding a frame with a known `type` tag yields.
pub open spec fn spec_decode_message_tagged(ms: Seq<(Seq<char>, JsonSpec)>, tag: Seq<char>) -> Result<
    CensusMessageView,
    DecodeError,
> {
    if tag == "connectionStateChanged"@ {
        match spec_boolstr_field(ms, "connected"@) {
            Ok(connected) => Ok(CensusMessageView::ConnectionStateChanged { connected }),
            Err(e) => Err(DecodeError::MalformedPayload(e)),
        }
    } else if tag == "heartbeat"@ {
        match spec_get(ms, "online"@) {
            None => Err(DecodeError::MalformedPayload(MalformedCause::MissingField)),
            Some(JsonSpec::Obj(ms2)) => match spec_online_pairs(ms2) {
                Ok(online) => Ok(CensusMessageView::Heartbeat { online }),
                Err(e) => Err(DecodeError::MalformedPayload(e)),
            },
            Some(_) => Err(DecodeError::MalformedPayload(MalformedCause::WrongFieldShape)),
        }
    } else if tag == "serviceMessage"@ {
        match spec_get(ms, "payload"@) {
            None => Err(DecodeError::MalformedPayload(MalformedCause::MissingField)),
            Some(p) => match spec_decode_event(p) {
                Ok(payload) => Ok(CensusMessageView::ServiceMessage { payload }),
                Err(e) => Err(e),
            },
        }
    } else if tag == "serviceStateChanged"@ {
        match spec_boolstr_field(ms, "online"@) {
            Err(e) => Err(DecodeError::MalformedPayload(e)),
            Ok(online) => match spec_get(ms, "detail"@) {
                None => Err(DecodeError::MalformedPayload(MalformedCause::MissingField)),
                Some(JsonSpec::Str(detail)) => Ok(
                    CensusMessageView::ServiceStateChanged { online, detail },
                ),
                Some(_) => Err(DecodeError::MalformedPayload(MalformedCause::WrongFieldShape)),
            },
        }
    } else if tag == "subscription"@ {
        match spec_get(ms, "subscription"@) {
            None => Err(DecodeError::MalformedPayload(MalformedCause::MissingField)),
            Some(JsonSpec::Obj(ms2)) => match spec_decode_subscription(ms2) {
                Ok(subscription) => Ok(CensusMessageView::Subscription { subscription }),
                Err(e) => Err(DecodeError::MalformedPayload(e)),
            },
            Some(_) => Err(DecodeError::MalformedPayload(MalformedCause::WrongFieldShape)),
        }
    } else {
        Err(DecodeError::UnknownDiscriminator)
    }
}

/// Decodes one frame of text into its envelope.
pub fn decode_message(text: &str) -> (r: Result<CensusMessage, DecodeError>)
    ensures
        match r {
            Ok(m) => spec_decode_message(text@) == Ok::<_, DecodeError>(m@),
            Err(e) => spec_decode_message(text@) == Err::<CensusMessageView, _>(e),
        },
{
    let parsed = match parse_text(text) {
        Some(v) => v,
        None => {
            return Err(DecodeError::MalformedPayload(MalformedCause::NotJson));
        },
    };
    let ps = match &parsed {
        JsonValue::Obj(ps) => ps,
        _ => {
            return Err(DecodeError::MalformedPayload(MalformedCause::NotAnObject));
        },
    };
    proof {
        assert(parsed@->Obj_0 =~= json_view_members(ps@));
    }
    let tag = match obj_get(ps, "type") {
        None => {
            return Err(DecodeError::MalformedPayload(MalformedCause::MissingDiscriminator));
        },
        Some(v) => match v {
            JsonValue::Str(tag) => tag,
            _ => {
                return Err(DecodeError::MalformedPayload(MalformedCause::BadDiscriminator));
            },
        },
    };
    if string_eq_str(tag, "connectionStateChanged") {
        match boolstr_field(ps, "connected") {
            Ok(connected) => Ok(CensusMessage::ConnectionStateChanged { connected }),
            Err(e) => Err(DecodeError::MalformedPayload(e)),
        }
    } else if string_eq_str(tag, "heartbeat") {
        match obj_get(ps, "online") {
            None => Err(DecodeError::MalformedPayload(MalformedCause::MissingField)),
            Some(v) => match v {
                JsonValue::Obj(ps2) => {
                    proof {
                        assert(json_view(*v)->Obj_0 =~= json_view_members(ps2@));
                    }
                    match online_pairs(ps2) {
                        Ok(online) => Ok(CensusMessage::Heartbeat { online }),
                        Err(e) => Err(DecodeError::MalformedPayload(e)),
                    }
                },
                _ => Err(DecodeError::MalformedPayload(MalformedCause::WrongFieldShape)),
            },
        }
    } else if string_eq_str(tag, "serviceMessage") {
        match obj_get(ps, "payload") {
            None => Err(DecodeError::MalformedPayload(MalformedCause::MissingField)),
            Some(p) => match decode_event(p) {
                Ok(payload) => Ok(CensusMessage::ServiceMessage { payload }),
                Err(e) => Err(e),
            },
        }
    } else if string_eq_str(tag, "serviceStateChanged") {
        match boolstr_field(ps, "online") {
            Err(e) => Err(DecodeError::MalformedPayload(e)),
            Ok(online) => match obj_get(ps, "detail") {
                None => Err(DecodeError::MalformedPayload(MalformedCause::MissingField)),
                Some(v) => match v {
                    JsonValue::Str(detail) => Ok(
                        CensusMessage::ServiceStateChanged { online, detail: detail.clone() },
                    ),
                    _ => Err(DecodeError::MalformedPayload(MalformedCause::WrongFieldShape)),
                },
            },
        }
    } else if string_eq_str(tag, "subscription") {
        match obj_get(ps, "subscription") {
            None => Err(DecodeError::MalformedPayload(MalformedCause::MissingField)),
            Some(v) => match v {
                JsonValue::Obj(ps2) => {
                    proof {
                        assert(json_view(*v)->Obj_0 =~= json_view_members(ps2@));
                    }
                    match decode_subscription(ps2) {
                        Ok(subscription) => Ok(CensusMessage::Subscription { subscription }),
                        Err(e) => Err(DecodeError::MalformedPayload(e)),
                    }
                },
                _ => Err(DecodeError::MalformedPayload(MalformedCause::WrongFieldShape)),
            },
        }
    } else {
        Err(DecodeError::UnknownDiscriminator)
    }
}

/// An outbound control action, one per frame sent.
pub enum Action {
    /// Ask the server to echo a payload back.
    Echo { payload: JsonValue, service: Service },
    /// Replace the server-side subscription with the given one.
    Subscribe(SubscriptionSettings),
    /// Drop all or part of the server-side subscription.
    ClearSubscribe {
        all: Option<bool>,
        event_names: Option<EventSubscription>,
        characters: Option<CharacterSubscription>,
        worlds: Option<WorldSubscription>,
        service: Service,
    },
    /// Ask for the recently seen character identifiers.
    RecentCharacterIds { service: Service },
    /// Ask for the count of recently seen character identifiers.
    RecentCharacterIdsCount { service: Service },
}

/// The mathematical value of an [`Action`].
pub enum ActionView {
    Echo { payload: JsonSpec, service: Service },
    Subscribe(SubscriptionSettingsView),
    ClearSubscribe {
        all: Option<bool>,
        event_names: Option<EventSubscriptionView>,
        characters: Option<CharacterSubscriptionView>,
        worlds: Option<WorldSubscriptionView>,
        service: Service,
    },
    RecentCharacterIds { service: Service },
    RecentCharacterIdsCount { service: Service },
}

impl View for Action {
    type V = ActionView;

    open spec fn view(&self) -> ActionView {
        match self {
            Action::Echo { payload, service } => ActionView::Echo {
                payload: payload@,
                service: *service,
            },
            Action::Subscribe(s) => ActionView::Subscribe(s@),
            Action::ClearSubscribe { all, event_names, characters, worlds, service } => {
                ActionView::ClearSubscribe {
                    all: *all,
                    event_names: match event_names {
                        Some(e) => Some(e@),
                        None => None,
                    },
                    characters: match characters {
                        Some(c) => Some(c@),
                        None => None,
                    },
                    worlds: match worlds {
                        Some(w) => Some(w@),
                        None => None,
                    },
                    service: *service,
                }
            },
            Action::RecentCharacterIds { service } => ActionView::RecentCharacterIds {
                service: *service,
            },
            Action::RecentCharacterIdsCount { service } => ActionView::RecentCharacterIdsCount {
                service: *service,
            },
        }
    }
}

/// The wire members a subscription contributes: each present dimension
/// under its wire key, absent dimensions left off entirely, the service tag
/// last.
pub open spec fn spec_settings_members(s: SubscriptionSettingsView) -> Seq<(Seq<char>, JsonSpec)> {
    (match s.event_names {
        Some(e) => seq![("eventNames"@, spec_event_sub_json(e))],
        None => Seq::empty(),
    }) + (match s.characters {
        Some(c) => seq![("characters"@, spec_char_sub_json(c))],
        None => Seq::empty(),
    }) + (match s.logical_and_characters_with_worlds {
        Some(b) => seq![("logicalAndCharactersWithWorlds"@, JsonSpec::Bool(b))],
        None => Seq::empty(),
    }) + (match s.worlds {
        Some(w) => seq![("worlds"@, spec_world_sub_json(w))],
        None => Seq::empty(),
    }) + seq![("service"@, JsonSpec::Str(s.service.spec_wire_name()))]
}

/// The wire members of a clear-subscription action. The `all` marker
/// travels as a string boolean.
pub open spec fn spec_clear_members(
    all: Option<bool>,
    event_names: Option<EventSubscriptionView>,
    characters: Option<CharacterSubscriptionView>,
    worlds: Option<WorldSubscriptionView>,
    service: Service,
) -> Seq<(Seq<char>, JsonSpec)> {
    (match all {
        Some(b) => seq![
            ("all"@, JsonSpec::Str(if b {
                    "true"@
                } else {
                    "false"@
                })),
        ],
        None => Seq::empty(),
    }) + (match event_names {
        Some(e) => seq![("eventNames"@, spec_event_sub_json(e))],
        None => Seq::empty(),
    }) + (match characters {
        Some(c) => seq![("characters"@, spec_char_sub_json(c))],
        None => Seq::empty(),
    }) + (match worlds {
        Some(w) => seq![("worlds"@, spec_world_sub_json(w))],
        None => Seq::empty(),
    }) + seq![("service"@, JsonSpec::Str(service.spec_wire_name()))]
}

/// The wire object of an action: its `action` tag first, then the
/// variant's own members.
pub open spec fn spec_action_json(a: ActionView) -> JsonSpec {
    match a {
        ActionView::Echo { payload, service } => JsonSpec::Obj(
            seq![
                ("action"@, JsonSpec::Str("echo"@)),
                ("payload"@, payload),
                ("service"@, JsonSpec::Str(service.spec_wire_name())),
            ],
        ),
        ActionView::Subscribe(s) => JsonSpec::Obj(
            seq![("action"@, JsonSpec::Str("subscribe"@))] + spec_settings_members(s),
        ),
        ActionView::ClearSubscribe { all, event_names, characters, worlds, service } => {
            JsonSpec::Obj(
                seq![("action"@, JsonSpec::Str("clearSubscribe"@))] + spec_clear_members(
                    all,
                    event_names,
                    characters,
                    worlds,
                    service,
                ),
            )
        },
        ActionView::RecentCharacterIds { service } => JsonSpec::Obj(
            seq![
                ("action"@, JsonSpec::Str("recentCharacterIds"@)),
                ("service"@, JsonSpec::Str(service.spec_wire_name())),
            ],
        ),
        ActionView::RecentCharacterIdsCount { service } => JsonSpec::Obj(
            seq![
                ("action"@, JsonSpec::Str("recentCharacterIdsCount"@)),
                ("service"@, JsonSpec::Str(service.spec_wire_name())),
            ],
        ),
    }
}

/// The text frame of an action: the rendering of its wire object.
pub open spec fn spec_encode_action(a: ActionView) -> Seq<char> {
    spec_render(spec_action_json(a))
}

/// Appends one member to an object under construction.
fn push_member(ms: &mut Vec<(String, JsonValue)>, key: &str, v: JsonValue)
    ensures
        json_view_members(final(ms)@) == json_view_members(old(ms)@).push((key@, v@)),
{
    let ghost pv = v@;
    let ghost prev = ms@;
    let ks = String::from_str(key);
    let pair = (ks, v);
    let ghost gpair = pair;
    ms.push(pair);
    proof {
        assert(ms@ == prev.push(gpair));
        assert(prev.push(gpair).len() == prev.len() + 1);
        assert forall|k: int| 0 <= k < ms@.len() implies json_view_members(ms@)[k] == (
        if k < prev.len() {
            json_view_members(prev)[k]
        } else {
            (key@, pv)
        }) by {
            assert(ms@[k] == prev.push(gpair)[k]);
        }
        assert(json_view_members(ms@) =~= json_view_members(prev).push((key@, pv)));
    }
}

/// Encodes an action as one text frame. Encoding is total: every action
/// renders, and renders the same way every time.
pub fn encode_action(a: Action) -> (r: String)
    ensures
        r@ == spec_encode_action(a@),
{
    let ghost av = a@;
    let mut ms: Vec<(String, JsonValue)> = Vec::new();
    proof {
        assert(json_view_members(ms@) =~= Seq::<(Seq<char>, JsonSpec)>::empty());
    }
    match a {
        Action::Echo { payload, service } => {
            push_member(&mut ms, "action", JsonValue::Str(String::from_str("echo")));
            push_member(&mut ms, "payload", payload);
            push_member(&mut ms, "service", JsonValue::Str(service.wire_name()));
            let obj = JsonValue::Obj(ms);
            proof {
                assert(obj@->Obj_0 =~= json_view_members(obj->Obj_0@));
                assert(obj@->Obj_0 =~= spec_action_json(av)->Obj_0);
            }
            render(&obj)
        },
        Action::Subscribe(s) => {
            let ghost sv = s@;
            push_member(&mut ms, "action", JsonValue::Str(String::from_str("subscribe")));
            match s.event_names {
                Some(e) => push_member(&mut ms, "eventNames", event_sub_json(&e)),
                None => {},
            }
            match s.characters {
                Some(c) => push_member(&mut ms, "characters", char_sub_json(&c)),
                None => {},
            }
            match s.logical_and_characters_with_worlds {
                Some(b) => push_member(&mut ms, "logicalAndCharactersWithWorlds", JsonValue::Bool(b)),
                None => {},
            }
            match s.worlds {
                Some(w) => push_member(&mut ms, "worlds", world_sub_json(&w)),
                None => {},
            }
            push_member(&mut ms, "service", JsonValue::Str(s.service.wire_name()));
            let obj = JsonValue::Obj(ms);
            proof {
                assert(obj@->Obj_0 =~= json_view_members(obj->Obj_0@));
                assert(obj@->Obj_0 =~= seq![("action"@, JsonSpec::Str("subscribe"@))]
                    + spec_settings_members(sv));
            }
            render(&obj)
        },
        Action::ClearSubscribe { all, event_names, characters, worlds, service } => {
            push_member(&mut ms, "action", JsonValue::Str(String::from_str("clearSubscribe")));
            match all {
                Some(b) => {
                    if b {
                        push_member(&mut ms, "all", JsonValue::Str(String::from_str("true")));
                    } else {
                        push_member(&mut ms, "all", JsonValue::Str(String::from_str("false")));
                    }
                },
                None => {},
            }
            match event_names {
                Some(e) => push_member(&mut ms, "eventNames", event_sub_json(&e)),
                None => {},
            }
            match characters {
                Some(c) => push_member(&mut ms, "characters", char_sub_json(&c)),
                None => {},
            }
            match worlds {
                Some(w) => push_member(&mut ms, "worlds", world_sub_json(&w)),
                None => {},
            }
            push_member(&mut ms, "service", JsonValue::Str(service.wire_name()));
            let obj = JsonValue::Obj(ms);
            proof {
                assert(obj@->Obj_0 =~= json_view_members(obj->Obj_0@));
                assert(obj@->Obj_0 =~= spec_action_json(av)->Obj_0);
            }
            render(&obj)
        },
        Action::RecentCharacterIds { service } => {
            push_member(&mut ms, "action", JsonValue::Str(String::from_str("recentCharacterIds")));
            push_member(&mut ms, "service", JsonValue::Str(service.wire_name()));
            let obj = JsonValue::Obj(ms);
            proof {
                assert(obj@->Obj_0 =~= json_view_members(obj->Obj_0@));
                assert(obj@->Obj_0 =~= spec_action_json(av)->Obj_0);
            }
            render(&obj)
        },
        Action::RecentCharacterIdsCount { service } => {
            push_member(
                &mut ms,
                "action",
                JsonValue::Str(String::from_str("recentCharacterIdsCount")),
            );
            push_member(&mut ms, "service", JsonValue::Str(service.wire_name()));
            let obj = JsonValue::Obj(ms);
            proof {
                assert(obj@->Obj_0 =~= json_view_members(obj->Obj_0@));
                assert(obj@->Obj_0 =~= spec_action_json(av)->Obj_0);
            }
            render(&obj)
        },
    }
}

/// The text frame that subscribes with the given settings: what the client
/// sends on the server handshake and on each resubscription tick.
pub open spec fn spec_subscribe_text(s: SubscriptionSettingsView) -> Seq<char> {
    spec_encode_action(ActionView::Subscribe(s))
}

/// Encodes the subscribe frame for the given settings.
pub fn subscribe_text(s: &SubscriptionSettings) -> (r: String)
    ensures
        r@ == spec_subscribe_text(s@),
{
    encode_action(Action::Subscribe(s.duplicate()))
}

} // verus!

//! The desired subscription: which events, characters and worlds the
//! consumer wants pushed. One current value, replaced as a whole by each
//! `subscribe` call, and rendered onto the wire when the server handshake
//! completes or the periodic resubscription fires.

use crate::constants::WorldID;
use crate::event::EventNames;
use crate::json::{json_view, json_view_seq, JsonSpec, JsonValue};
use crate::text::{chars_to_string, push_u64_string, spec_u64_string};
use crate::CharacterID;
use vstd::prelude::*;
use vstd::string::StringExecFns;

verus! {

broadcast use {vstd::std_specs::vec::group_vec_axioms, vstd::seq::group_seq_axioms};

/// The push service a subscription addresses. This client speaks to the
/// event service only.
#[derive(Copy, Clone, PartialEq, Eq, Structural, Debug)]
pub enum Service {
    Event,
}

impl Service {
    /// The string under which the service travels on the wire.
    pub open spec fn spec_wire_name(self) -> Seq<char> {
        "event"@
    }

    /// Renders the service tag as its wire string.
    pub fn wire_name(&self) -> (r: String)
        ensures
            r@ == self.spec_wire_name(),
    {
        String::from_str("event")
    }
}

/// The character dimension of a subscription: all characters, or an
/// explicit set.
#[derive(Clone, PartialEq, Debug)]
pub enum CharacterSubscription {
    All,
    Ids(Vec<CharacterID>),
}

/// The mathematical value of a [`CharacterSubscription`].
pub enum CharacterSubscriptionView {
    All,
    Ids(Seq<CharacterID>),
}

impl View for CharacterSubscription {
    type V = CharacterSubscriptionView;

    open spec fn view(&self) -> CharacterSubscriptionView {
        match self {
            CharacterSubscription::All => CharacterSubscriptionView::All,
            CharacterSubscription::Ids(ids) => CharacterSubscriptionView::Ids(ids@),
        }
    }
}

/// The world dimension of a subscription: all worlds, or an explicit set.
#[derive(Clone, PartialEq, Debug)]
pub enum WorldSubscription {
    All,
    Ids(Vec<WorldID>),
}

/// The mathematical value of a [`WorldSubscription`].
pub enum WorldSubscriptionView {
    All,
    Ids(Seq<WorldID>),
}

impl View for WorldSubscription {
    type V = WorldSubscriptionView;

    open spec fn view(&self) -> WorldSubscriptionView {
        match self {
            WorldSubscription::All => WorldSubscriptionView::All,
            WorldSubscription::Ids(ids) => WorldSubscriptionView::Ids(ids@),
        }
    }
}

/// The event dimension of a subscription: all events, or an explicit set of
/// event names.
#[derive(Clone, PartialEq, Debug)]
pub enum EventSubscription {
    All,
    Ids(Vec<EventNames>),
}

/// The mathematical value of an [`EventSubscription`].
pub enum EventSubscriptionView {
    All,
    Ids(Seq<EventNames>),
}

impl View for EventSubscription {
    type V = EventSubscriptionView;

    open spec fn view(&self) -> EventSubscriptionView {
        match self {
            EventSubscription::All => EventSubscriptionView::All,
            EventSubscription::Ids(ids) => EventSubscriptionView::Ids(ids@),
        }
    }
}

/// The desired subscription. Exactly one of all-or-explicit-set per
/// dimension; an absent dimension is left off the wire entirely.
#[derive(Clone, PartialEq, Debug)]
pub struct SubscriptionSettings {
    pub event_names: Option<EventSubscription>,
    pub characters: Option<CharacterSubscription>,
    pub logical_and_characters_with_worlds: Option<bool>,
    pub worlds: Option<WorldSubscription>,
    pub service: Service,
}

/// The mathematical value of [`SubscriptionSettings`].
pub struct SubscriptionSettingsView {
    pub event_names: Option<EventSubscriptionView>,
    pub characters: Option<CharacterSubscriptionView>,
    pub logical_and_characters_with_worlds: Option<bool>,
    pub worlds: Option<WorldSubscriptionView>,
    pub service: Service,
}

impl View for SubscriptionSettings {
    type V = SubscriptionSettingsView;

    open spec fn view(&self) -> SubscriptionSettingsView {
        SubscriptionSettingsView {
            event_names: match self.event_names {
                Some(e) => Some(e@),
                None => None,
            },
            characters: match self.characters {
                Some(c) => Some(c@),
                None => None,
            },
            logical_and_characters_with_worlds: self.logical_and_characters_with_worlds,
            worlds: match self.worlds {
                Some(w) => Some(w@),
                None => None,
            },
            service: self.service,
        }
    }
}

/// The default subscription: everything, everywhere.
pub open spec fn spec_default_settings() -> SubscriptionSettingsView {
    SubscriptionSettingsView {
        event_names: Some(EventSubscriptionView::All),
        characters: Some(CharacterSubscriptionView::All),
        logical_and_characters_with_worlds: None,
        worlds: Some(WorldSubscriptionView::All),
        service: Service::Event,
    }
}

impl Default for SubscriptionSettings {
    /// Everything, everywhere: all events for all characters on all worlds.
    fn default() -> (r: Self)
        ensures
            r@ == spec_default_settings(),
    {
        SubscriptionSettings {
            event_names: Some(EventSubscription::All),
            characters: Some(CharacterSubscription::All),
            logical_and_characters_with_worlds: None,
            worlds: Some(WorldSubscription::All),
            service: Service::Event,
        }
    }
}

/// A copy of a vector of copyable elements.
pub fn copy_vec<T: Copy>(v: &Vec<T>) -> (r: Vec<T>)
    ensures
        r@ == v@,
{
    let mut r: Vec<T> = Vec::new();
    let mut i: usize = 0;
    while i < v.len()
        invariant
            0 <= i <= v@.len(),
            r@ == v@.subrange(0, i as int),
        decreases v@.len() - i,
    {
        r.push(v[i]);
        i = i + 1;
        proof {
            assert(r@ =~= v@.subrange(0, i as int));
        }
    }
    proof {
        assert(r@ =~= v@);
    }
    r
}

impl CharacterSubscription {
    /// A copy with the same value.
    pub fn duplicate(&self) -> (r: Self)
        ensures
            r@ == self@,
    {
        match self {
            CharacterSubscription::All => CharacterSubscription::All,
            CharacterSubscription::Ids(ids) => CharacterSubscription::Ids(copy_vec(ids)),
        }
    }
}

impl WorldSubscription {
    /// A copy with the same value.
    pub fn duplicate(&self) -> (r: Self)
        ensures
            r@ == self@,
    {
        match self {
            WorldSubscription::All => WorldSubscription::All,
            WorldSubscription::Ids(ids) => WorldSubscription::Ids(copy_vec(ids)),
        }
    }
}

impl EventSubscription {
    /// A copy with the same value.
    pub fn duplicate(&self) -> (r: Self)
        ensures
            r@ == self@,
    {
        match self {
            EventSubscription::All => EventSubscription::All,
            EventSubscription::Ids(ids) => EventSubscription::Ids(copy_vec(ids)),
        }
    }
}

impl SubscriptionSettings {
    /// A copy with the same value.
    pub fn duplicate(&self) -> (r: Self)
        ensures
            r@ == self@,
    {
        SubscriptionSettings {
            event_names: match &self.event_names {
                Some(e) => Some(e.duplicate()),
                None => None,
            },
            characters: match &self.characters {
                Some(c) => Some(c.duplicate()),
                None => None,
            },
            logical_and_characters_with_worlds: self.logical_and_characters_with_worlds,
            worlds: match &self.worlds {
                Some(w) => Some(w.duplicate()),
                None => None,
            },
            service: self.service,
        }
    }
}

/// The wire form of the whole-dimension marker: the one-element list of
/// the literal `all`.
pub open spec fn spec_all_json() -> JsonSpec {
    JsonSpec::Arr(seq![JsonSpec::Str("all"@)])
}

/// The wire form of a character dimension: `all`, or the identifiers as
/// decimal strings.
pub open spec fn spec_char_sub_json(c: CharacterSubscriptionView) -> JsonSpec {
    match c {
        CharacterSubscriptionView::All => spec_all_json(),
        CharacterSubscriptionView::Ids(ids) => JsonSpec::Arr(
            Seq::new(ids.len(), |k: int| JsonSpec::Str(spec_u64_string(ids[k]))),
        ),
    }
}

/// The wire form of a world dimension: `all`, or the world codes as decimal
/// strings.
pub open spec fn spec_world_sub_json(w: WorldSubscriptionView) -> JsonSpec {
    match w {
        WorldSubscriptionView::All => spec_all_json(),
        WorldSubscriptionView::Ids(ids) => JsonSpec::Arr(
            Seq::new(
                ids.len(),
                |k: int| JsonSpec::Str(spec_u64_string(ids[k].spec_code() as u64)),
            ),
        ),
    }
}

/// The wire form of an event dimension: `all`, or the event names.
pub open spec fn spec_event_sub_json(e: EventSubscriptionView) -> JsonSpec {
    match e {
        EventSubscriptionView::All => spec_all_json(),
        EventSubscriptionView::Ids(names) => JsonSpec::Arr(
            Seq::new(names.len(), |k: int| JsonSpec::Str(names[k].spec_wire_name())),
        ),
    }
}

/// Builds the wire form of the whole-dimension marker.
pub fn all_json() -> (r: JsonValue)
    ensures
        r@ == spec_all_json(),
{
    let mut items: Vec<JsonValue> = Vec::new();
    let lit = String::from_str("all");
    proof {
        assert(lit@ == "all"@);
    }
    items.push(JsonValue::Str(lit));
    let ghost iv = items@;
    let r = JsonValue::Arr(items);
    proof {
        let ghost s = r@->Arr_0;
        assert(s.len() == 1);
        assert(iv[0] matches JsonValue::Str(x) && x@ == "all"@);
        assert(s[0] == json_view(iv[0]));
        assert(s[0] == JsonSpec::Str("all"@));
        assert(spec_all_json()->Arr_0 == seq![JsonSpec::Str("all"@)]);
        assert(s =~= spec_all_json()->Arr_0);
    }
    r
}

/// Builds the wire form of a character dimension.
pub fn char_sub_json(c: &CharacterSubscription) -> (r: JsonValue)
    ensures
        r@ == spec_char_sub_json(c@),
{
    match c {
        CharacterSubscription::All => all_json(),
        CharacterSubscription::Ids(ids) => {
            let mut items: Vec<JsonValue> = Vec::new();
            let mut i: usize = 0;
            while i < ids.len()
                invariant
                    0 <= i <= ids@.len(),
                    json_view_seq(items@) =~= Seq::new(
                        i as nat,
                        |k: int| JsonSpec::Str(spec_u64_string(ids@[k])),
                    ),
                decreases ids@.len() - i,
            {
                let ghost prev = items@;
                let mut cs: Vec<char> = Vec::new();
                push_u64_string(&mut cs, ids[i]);
                proof {
                    assert(cs@ =~= spec_u64_string(ids@[i as int]));
                }
                let sval = JsonValue::Str(chars_to_string(cs));
                let ghost pushed = sval;
                items.push(sval);
                i = i + 1;
                proof {
                    assert forall|k: int| 0 <= k < i as int implies json_view_seq(items@)[k]
                        == JsonSpec::Str(spec_u64_string(ids@[k])) by {
                        assert(items@[k] == prev.push(pushed)[k]);
                        assert(json_view_seq(prev).len() == prev.len());
                        assert(prev.len() == i - 1);
                        if k == i - 1 {
                            assert(items@[k] == pushed);
                        }
                        if k < i - 1 {
                            assert(json_view_seq(prev)[k] == JsonSpec::Str(
                                spec_u64_string(ids@[k]),
                            ));
                        }
                    }
                    assert(json_view_seq(prev).len() == prev.len());
                    assert(prev.len() == i - 1);
                    assert(items@ == prev.push(pushed));
                    assert(prev.push(pushed).len() == prev.len() + 1);
                    assert(items@.len() == i as int);
                    assert(json_view_seq(items@) =~= Seq::new(
                        i as nat,
                        |k: int| JsonSpec::Str(spec_u64_string(ids@[k])),
                    ));
                }
            }
            let r = JsonValue::Arr(items);
            proof {
                assert(r@->Arr_0 =~= spec_char_sub_json(c@)->Arr_0);
            }
            r
        },
    }
}

/// Builds the wire form of a world dimension.
pub fn world_sub_json(w: &WorldSubscription) -> (r: JsonValue)
    ensures
        r@ == spec_world_sub_json(w@),
{
    match w {
        WorldSubscription::All => all_json(),
        WorldSubscription::Ids(ids) => {
            let mut items: Vec<JsonValue> = Vec::new();
            let mut i: usize = 0;
            while i < ids.len()
                invariant
                    0 <= i <= ids@.len(),
                    json_view_seq(items@) =~= Seq::new(
                        i as nat,
                        |k: int| JsonSpec::Str(spec_u64_string(ids@[k].spec_code() as u64)),
                    ),
                decreases ids@.len() - i,
            {
                let ghost prev = items@;
                let mut cs: Vec<char> = Vec::new();
                push_u64_string(&mut cs, ids[i].code() as u64);
                proof {
                    assert(cs@ =~= spec_u64_string(ids@[i as int].spec_code() as u64));
                }
                let sval = JsonValue::Str(chars_to_string(cs));
                let ghost pushed = sval;
                items.push(sval);
                i = i + 1;
                proof {
                    assert forall|k: int| 0 <= k < i as int implies json_view_seq(items@)[k]
                        == JsonSpec::Str(spec_u64_string(ids@[k].spec_code() as u64)) by {
                        assert(items@[k] == prev.push(pushed)[k]);
                        assert(json_view_seq(prev).len() == prev.len());
                        assert(prev.len() == i - 1);
                        if k == i - 1 {
                            assert(items@[k] == pushed);
                        }
                        if k < i - 1 {
                            assert(json_view_seq(prev)[k] == JsonSpec::Str(
                                spec_u64_string(ids@[k].spec_code() as u64),
                            ));
                        }
                    }
                    assert(json_view_seq(prev).len() == prev.len());
                    assert(prev.len() == i - 1);
                    assert(items@ == prev.push(pushed));
                    assert(prev.push(pushed).len() == prev.len() + 1);
                    assert(items@.len() == i as int);
                    assert(json_view_seq(items@) =~= Seq::new(
                        i as nat,
                        |k: int| JsonSpec::Str(spec_u64_string(ids@[k].spec_code() as u64)),
                    ));
                }
            }
            let r = JsonValue::Arr(items);
            proof {
                assert(r@->Arr_0 =~= spec_world_sub_json(w@)->Arr_0);
            }
            r
        },
    }
}

/// Builds the wire form of an event dimension.
pub fn event_sub_json(e: &EventSubscription) -> (r: JsonValue)
    ensures
        r@ == spec_event_sub_json(e@),
{
    match e {
        EventSubscription::All => all_json(),
        EventSubscription::Ids(names) => {
            let mut items: Vec<JsonValue> = Vec::new();
            let mut i: usize = 0;
            while i < names.len()
                invariant
                    0 <= i <= names@.len(),
                    json_view_seq(items@) =~= Seq::new(
                        i as nat,
                        |k: int| JsonSpec::Str(names@[k].spec_wire_name()),
                    ),
                decreases names@.len() - i,
            {
                let ghost prev = items@;
                let sval = JsonValue::Str(names[i].wire_name());
                let ghost pushed = sval;
                items.push(sval);
                i = i + 1;
                proof {
                    assert forall|k: int| 0 <= k < i as int implies json_view_seq(items@)[k]
                        == JsonSpec::Str(names@[k].spec_wire_name()) by {
                        assert(items@[k] == prev.push(pushed)[k]);
                        assert(json_view_seq(prev).len() == prev.len());
                        assert(prev.len() == i - 1);
                        if k == i - 1 {
                            assert(items@[k] == pushed);
                        }
                        if k < i - 1 {
                            assert(json_view_seq(prev)[k] == JsonSpec::Str(
                                names@[k].spec_wire_name(),
                            ));
                        }
                    }
                    assert(json_view_seq(prev).len() == prev.len());
                    assert(prev.len() == i - 1);
                    assert(items@ == prev.push(pushed));
                    assert(prev.push(pushed).len() == prev.len() + 1);
                    assert(items@.len() == i as int);
                    assert(json_view_seq(items@) =~= Seq::new(
                        i as nat,
                        |k: int| JsonSpec::Str(names@[k].spec_wire_name()),
                    ));
                }
            }
            let r = JsonValue::Arr(items);
            proof {
                assert(r@->Arr_0 =~= spec_event_sub_json(e@)->Arr_0);
            }
            r
        },
    }
}

} // verus!

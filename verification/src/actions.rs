//! The groups of actions, as far as options switch them.

use vstd::prelude::*;
use vstd::string::*;
use crate::name_map::NameMap;

verus! {

/// An action or rule of a group: whether it runs, and whether it reports itself.
#[derive(Debug, Clone, Copy, PartialEq, Eq, Structural)]
pub struct RuleState {
    pub enabled: bool,
    pub warns: bool,
}

/// A sub-group that was switched in a group.
pub struct ActionToggle {
    pub group: String,
    pub sub: String,
    pub on: bool,
}

/// The groups of actions by name, each with its actions and rules by path; the group
/// that is current; and the switched sub-groups, in the order asked.
pub struct ActionDatabase {
    pub groups: NameMap<NameMap<RuleState>>,
    pub current: Option<String>,
    pub toggles: Vec<ActionToggle>,
}

/// A switched sub-group, in contracts.
pub struct ToggleView {
    pub group: Seq<char>,
    pub sub: Seq<char>,
    pub on: bool,
}

/// What contracts say of an [`ActionDatabase`].
#[verifier::ext_equal]
pub struct ActionState {
    pub groups: Map<Seq<char>, Map<Seq<char>, RuleState>>,
    pub current: Option<Seq<char>>,
    pub toggles: Seq<ToggleView>,
}

impl View for ActionDatabase {
    type V = ActionState;

    open spec fn view(&self) -> ActionState {
        ActionState {
            groups: self.groups@.map_values(|g: NameMap<RuleState>| g@),
            current: match self.current {
                Some(n) => Some(n@),
                None => None,
            },
            toggles: self.toggles@.map_values(
                |t: ActionToggle| ToggleView { group: t.group@, sub: t.sub@, on: t.on },
            ),
        }
    }
}

/// The actions and rules of the current group, where there is one.
pub open spec fn current_rules(a: ActionState) -> Option<Map<Seq<char>, RuleState>> {
    match a.current {
        Some(n) => if a.groups.contains_key(n) {
            Some(a.groups[n])
        } else {
            None
        },
        None => None,
    }
}

/// Whether the current group has an action or rule of this path.
pub open spec fn current_has(a: ActionState, path: Seq<char>) -> bool {
    current_rules(a) is Some && (current_rules(a)->0).contains_key(path)
}

/// The state with one action or rule of the current group changed.
pub open spec fn with_rule(a: ActionState, path: Seq<char>, rule: RuleState) -> ActionState {
    ActionState {
        groups: a.groups.insert(a.current->0, (current_rules(a)->0).insert(path, rule)),
        ..a
    }
}

/// The state after warnings of an action or rule were switched; where the current
/// group has none of that path, nothing changes.
pub open spec fn warning_effect(a: ActionState, path: Seq<char>, on: bool) -> (ActionState, bool) {
    if current_has(a, path) {
        let was = (current_rules(a)->0)[path];
        (with_rule(a, path, RuleState { warns: on, ..was }), true)
    } else {
        (a, false)
    }
}

/// The state after an action or rule was switched on or off.
pub open spec fn enable_effect(a: ActionState, path: Seq<char>, on: bool) -> (ActionState, bool) {
    if current_has(a, path) {
        let was = (current_rules(a)->0)[path];
        (with_rule(a, path, RuleState { enabled: on, ..was }), true)
    } else {
        (a, false)
    }
}

/// The state with another group current; an unknown group is ignored.
pub open spec fn select_effect(a: ActionState, name: Seq<char>) -> ActionState {
    if a.groups.contains_key(name) {
        ActionState { current: Some(name), ..a }
    } else {
        a
    }
}

/// The state with a group copied under a new name and made current; an unknown group
/// is ignored.
pub open spec fn clone_effect(a: ActionState, from: Seq<char>, to: Seq<char>) -> ActionState {
    if a.groups.contains_key(from) {
        ActionState { groups: a.groups.insert(to, a.groups[from]), current: Some(to), ..a }
    } else {
        a
    }
}

/// The state with one more switched sub-group.
pub open spec fn toggle_effect(
    a: ActionState,
    group: Seq<char>,
    sub: Seq<char>,
    on: bool,
) -> ActionState {
    ActionState { toggles: a.toggles.push(ToggleView { group, sub, on }), ..a }
}

/// The name of the current group; empty where there is none.
pub open spec fn current_name(a: ActionState) -> Seq<char> {
    match a.current {
        Some(n) => n,
        None => Seq::empty(),
    }
}

/// A copy of a group.
fn copy_rules(rules: &NameMap<RuleState>) -> (r: NameMap<RuleState>)
    ensures
        r@ == rules@,
{
    let names = rules.names();
    let mut r: NameMap<RuleState> = NameMap::new();
    let mut i: usize = 0;
    while i < names.len()
        invariant
            i <= names@.len(),
            forall|k: int| 0 <= k < names@.len() ==> rules@.contains_key((#[trigger] names@[k])@),
            forall|name: Seq<char>| #[trigger]
                r@.contains_key(name) <==> exists|k: int|
                    0 <= k < i && (#[trigger] names@[k])@ == name,
            forall|name: Seq<char>| #[trigger]
                r@.contains_key(name) ==> rules@.contains_key(name) && r@[name] == rules@[name],
        decreases names@.len() - i,
    {
        let ghost was = r@;
        match rules.get(names[i].as_str()) {
            Some(v) => {
                r.insert(names[i].as_str(), *v);
            },
            None => {},
        }
        proof {
            let key = names@[i as int]@;
            assert forall|name: Seq<char>| #[trigger]
                r@.contains_key(name) <==> exists|k: int|
                0 <= k < i + 1 && (#[trigger] names@[k])@ == name by {
                if r@.contains_key(name) {
                    if name == key {
                        assert(names@[i as int]@ == name);
                    } else {
                        assert(was.contains_key(name));
                    }
                }
                if exists|k: int| 0 <= k < i + 1 && (#[trigger] names@[k])@ == name {
                    let k = choose|k: int| 0 <= k < i + 1 && (#[trigger] names@[k])@ == name;
                    if k < i {
                        assert(was.contains_key(name));
                    }
                }
            }
        }
        i += 1;
    }
    assert(r@ =~= rules@);
    r
}

impl ActionDatabase {
    /// Change one action or rule of the current group; `None` where it has none of
    /// that path.
    fn change(&mut self, path: &str, enabled: Option<bool>, warns: Option<bool>) -> (r: bool)
        ensures
            r == current_has(old(self)@, path@),
            !r ==> final(self)@ == old(self)@,
            r ==> final(self)@ == with_rule(
                old(self)@,
                path@,
                RuleState {
                    enabled: match enabled {
                        Some(b) => b,
                        None => (current_rules(old(self)@)->0)[path@].enabled,
                    },
                    warns: match warns {
                        Some(b) => b,
                        None => (current_rules(old(self)@)->0)[path@].warns,
                    },
                },
            ),
    {
        let name = match &self.current {
            Some(n) => n.clone(),
            None => {
                return false;
            },
        };
        let mut rules = match self.groups.get(name.as_str()) {
            Some(g) => copy_rules(g),
            None => {
                return false;
            },
        };
        let was = match rules.get(path) {
            Some(v) => *v,
            None => {
                return false;
            },
        };
        let now = RuleState {
            enabled: match enabled {
                Some(b) => b,
                None => was.enabled,
            },
            warns: match warns {
                Some(b) => b,
                None => was.warns,
            },
        };
        let ghost before = self@;
        rules.insert(path, now);
        self.groups.insert(name.as_str(), rules);
        assert(self@.groups =~= with_rule(before, path@, now).groups);
        true
    }

    /// Switch the warnings of an action or rule of the current group.
    pub fn set_warning(&mut self, on: bool, path: &str) -> (r: bool)
        ensures
            (final(self)@, r) == warning_effect(old(self)@, path@, on),
    {
        self.change(path, None, Some(on))
    }

    /// Switch an action or rule of the current group on or off.
    pub fn enable(&mut self, path: &str, on: bool) -> (r: bool)
        ensures
            (final(self)@, r) == enable_effect(old(self)@, path@, on),
    {
        self.change(path, Some(on), None)
    }

    /// Make a group current.
    pub fn set_current(&mut self, name: &str)
        ensures
            final(self)@ == select_effect(old(self)@, name@),
    {
        if self.groups.contains(name) {
            self.current = Some(String::from_str(name));
        }
    }

    /// Copy a group under a new name and make the copy current.
    pub fn clone_group(&mut self, from: &str, to: &str)
        ensures
            final(self)@ == clone_effect(old(self)@, from@, to@),
    {
        let rules = match self.groups.get(from) {
            Some(g) => copy_rules(g),
            None => {
                return;
            },
        };
        let ghost before = self@;
        self.groups.insert(to, rules);
        self.current = Some(String::from_str(to));
        assert(self@.groups =~= clone_effect(before, from@, to@).groups);
    }

    /// Note down that a sub-group is switched.
    pub fn toggle(&mut self, group: &str, sub: &str, on: bool)
        ensures
            final(self)@ == toggle_effect(old(self)@, group@, sub@, on),
    {
        let ghost before = self@;
        self.toggles.push(
            ActionToggle { group: String::from_str(group), sub: String::from_str(sub), on },
        );
        assert(self@.toggles =~= toggle_effect(before, group@, sub@, on).toggles);
    }

    /// The name of the current group; empty where there is none.
    pub fn current_name(&self) -> (r: String)
        ensures
            r@ == current_name(self@),
    {
        match &self.current {
            Some(n) => n.clone(),
            None => {
                let r = String::new();
                assert(r@ =~= current_name(self@));
                r
            },
        }
    }

    /// Whether a group is current.
    pub fn has_current(&self) -> (r: bool)
        ensures
            r == (current_rules(self@) is Some),
    {
        match &self.current {
            Some(n) => self.groups.contains(n.as_str()),
            None => false,
        }
    }
}

} // verus!

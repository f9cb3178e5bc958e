//! The settings of a flag in each environment.

use crate::decode::FromJson;
use crate::error::{here, under, Problem, SchemaError, SchemaErrorView, Step, StepView};
use crate::json::{keys_differ, Json, JsonView};
use crate::targeting::{FeatureFlagConfig, FeatureFlagConfigView};
use vstd::prelude::*;
use vstd::string::StringExecFns;

verus! {

/// The settings of a flag in each environment, under the environment's key.
///
/// No key occurs twice, and the entries keep the order of the members of the
/// object they were read from. An object that holds a key twice is not read:
/// no entry is dropped or overwritten in silence.
///
/// The entries are a list with an invariant and not a `BTreeMap`: vstd
/// specifies the methods of that map only for keys whose order it knows, and
/// `String` is not among them, so nothing could be shown of what the map
/// holds.
#[derive(Debug)]
pub struct FlagEnvironments {
    entries: Vec<(String, FeatureFlagConfig)>,
}

impl DeepView for FlagEnvironments {
    type V = Seq<(Seq<char>, FeatureFlagConfigView)>;

    closed spec fn deep_view(&self) -> Seq<(Seq<char>, FeatureFlagConfigView)> {
        self.entries.deep_view()
    }
}

impl View for FlagEnvironments {
    type V = Seq<(Seq<char>, FeatureFlagConfigView)>;

    open spec fn view(&self) -> Seq<(Seq<char>, FeatureFlagConfigView)> {
        self.deep_view()
    }
}

impl FlagEnvironments {
    #[verifier::type_invariant]
    spec fn keys_are_unique(self) -> bool {
        keys_differ(self.entries.deep_view())
    }

    /// The number of environments.
    pub fn len(&self) -> (n: usize)
        ensures
            n == self@.len(),
    {
        self.entries.len()
    }

    /// The entries, in the order of the value they were read from.
    pub fn entries(&self) -> (entries: &Vec<(String, FeatureFlagConfig)>)
        ensures
            entries.deep_view() == self@,
            keys_differ(self@),
    {
        proof {
            use_type_invariant(self);
        }
        &self.entries
    }

    /// The settings for the environment `key`.
    pub fn get(&self, key: &str) -> (r: Option<&FeatureFlagConfig>)
        ensures
            match r {
                Some(config) => exists|i: int|
                    0 <= i < self@.len() && #[trigger] self@[i] == (key@, config@),
                None => forall|i: int| 0 <= i < self@.len() ==> (#[trigger] self@[i]).0 != key@,
            },
    {
        let wanted = String::from_str(key);
        let mut i: usize = 0;
        while i < self.entries.len()
            invariant
                i <= self.entries.len(),
                wanted@ == key@,
                forall|k: int| 0 <= k < i ==> (#[trigger] self@[k]).0 != key@,
            decreases self.entries.len() - i,
        {
            if self.entries[i].0 == wanted {
                assert(self@[i as int] == (key@, self.entries[i as int].1@));
                return Some(&self.entries[i].1);
            }
            i += 1;
        }
        None
    }
}

/// The first fault in the members of an object of environments from the
/// place `from` on: a name that an earlier member has, or the fault inside
/// a member.
pub open spec fn entries_fault(members: Seq<(Seq<char>, JsonView)>, from: int) -> Option<
    SchemaErrorView,
>
    decreases members.len() - from,
{
    if from < 0 || from >= members.len() {
        None
    } else if exists|k: int| 0 <= k < from && (#[trigger] members[k]).0 == members[from].0 {
        Some(under(StepView::Member(members[from].0), here(Problem::Repeated)))
    } else {
        match FeatureFlagConfig::fault(members[from].1) {
            Some(fault) => Some(under(StepView::Member(members[from].0), fault)),
            None => entries_fault(members, from + 1),
        }
    }
}

/// An object that holds a key twice stands for no environments: neither of
/// the two members is dropped to make the other fit.
pub proof fn lemma_repeated_key_refused(
    json: JsonView,
    i: int,
    j: int,
    value: Seq<(Seq<char>, FeatureFlagConfigView)>,
)
    requires
        json is Object,
        0 <= i < j < json->Object_0.len(),
        json->Object_0[i].0 == json->Object_0[j].0,
    ensures
        !FlagEnvironments::matches(json, value),
{
}

impl FromJson for FlagEnvironments {
    open spec fn matches(json: JsonView, value: Seq<(Seq<char>, FeatureFlagConfigView)>) -> bool {
        &&& json matches JsonView::Object(members)
        &&& keys_differ(members)
        &&& members.len() == value.len()
        &&& forall|i: int|
            0 <= i < members.len() ==> (#[trigger] value[i]).0 == members[i].0
                && FeatureFlagConfig::matches(members[i].1, value[i].1)
    }

    open spec fn fault(json: JsonView) -> Option<SchemaErrorView> {
        match json {
            JsonView::Object(members) => entries_fault(members, 0),
            _ => Some(here(Problem::Mistyped)),
        }
    }

    proof fn lemma_unique(
        json: JsonView,
        a: Seq<(Seq<char>, FeatureFlagConfigView)>,
        b: Seq<(Seq<char>, FeatureFlagConfigView)>,
    ) {
        let members = json->Object_0;
        assert forall|i: int| 0 <= i < a.len() implies a[i] == b[i] by {
            FeatureFlagConfig::lemma_unique(members[i].1, a[i].1, b[i].1);
        }
        assert(a =~= b);
    }

    fn from_json(json: &Json) -> (r: Result<FlagEnvironments, SchemaError>) {
        let members = match json.members() {
            Some(members) => members,
            None => {
                return Err(SchemaError::here(Problem::Mistyped));
            },
        };
        let ghost all = members.deep_view();
        let mut entries: Vec<(String, FeatureFlagConfig)> = Vec::new();
        let mut i: usize = 0;
        while i < members.len()
            invariant
                i <= members.len(),
                entries.len() == i,
                all == members.deep_view(),
                json@ == JsonView::Object(all),
                keys_differ(all.take(i as int)),
                entries_fault(all, 0) == entries_fault(all, i as int),
                forall|k: int|
                    0 <= k < i ==> (#[trigger] entries@[k]).0@ == all[k].0
                        && FeatureFlagConfig::matches(all[k].1, entries@[k].1@),
            decreases members.len() - i,
        {
            let mut j: usize = 0;
            while j < i
                invariant
                    j <= i < members.len(),
                    all == members.deep_view(),
                    json@ == JsonView::Object(all),
                    entries_fault(all, 0) == entries_fault(all, i as int),
                    forall|k: int| 0 <= k < j ==> (#[trigger] all[k]).0 != all[i as int].0,
                decreases i - j,
            {
                if members[j].0 == members[i].0 {
                    assert(all[j as int].0 == all[i as int].0);
                    assert(all[i as int].0 == members@[i as int].0@);
                    let name = members[i].0.clone();
                    return Err(SchemaError::here(Problem::Repeated).under(Step::Member(name)));
                }
                j += 1;
            }
            assert(all[i as int].1 == members@[i as int].1@);
            match FeatureFlagConfig::from_json(&members[i].1) {
                Ok(config) => {
                    entries.push((members[i].0.clone(), config));
                },
                Err(e) => {
                    assert forall|value: Seq<(Seq<char>, FeatureFlagConfigView)>|
                        !Self::matches(json@, value) by {
                        if Self::matches(json@, value) {
                            assert(value[i as int].0 == all[i as int].0);
                        }
                    }
                    let name = members[i].0.clone();
                    return Err(e.under(Step::Member(name)));
                },
            }
            assert forall|a: int, b: int| 0 <= a < b < i + 1 implies (#[trigger] all.take(
                i as int + 1,
            )[a]).0 != (#[trigger] all.take(i as int + 1)[b]).0 by {
                if b < i {
                    assert(all.take(i as int)[a].0 != all.take(i as int)[b].0);
                }
            }
            i += 1;
        }
        assert(all.take(i as int) =~= all);
        assert forall|a: int, b: int| 0 <= a < b < i implies (#[trigger] entries.deep_view()[a]).0
            != (#[trigger] entries.deep_view()[b]).0 by {
            assert(all[a].0 != all[b].0);
        }
        let r = FlagEnvironments { entries };
        assert forall|k: int| 0 <= k < all.len() implies (#[trigger] r@[k]).0 == all[k].0
            && FeatureFlagConfig::matches(all[k].1, r@[k].1) by {
            assert(entries@[k].0@ == all[k].0);
        }
        Ok(r)
    }
}

} // verus!

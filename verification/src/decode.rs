//! Decoding of JSON values into typed records.

use crate::error::{here, under, Problem, SchemaError, SchemaErrorView, Step, StepView};
use crate::json::{Json, JsonView, Number, NumberView};
use vstd::prelude::*;
use vstd::string::StringExecFns;

verus! {

/// The value of the first member of `members` that is named `name`.
pub open spec fn lookup(members: Seq<(Seq<char>, JsonView)>, name: Seq<char>) -> Option<JsonView>
    decreases members.len(),
{
    if members.len() == 0 {
        None
    } else if members[0].0 == name {
        Some(members[0].1)
    } else {
        lookup(members.skip(1), name)
    }
}

/// The member `name` of a JSON object; nothing for any other value.
pub open spec fn field(json: JsonView, name: Seq<char>) -> Option<JsonView> {
    match json {
        JsonView::Object(members) => lookup(members, name),
        _ => None,
    }
}

/// How many of `members` are named `name`.
pub open spec fn occurrences(members: Seq<(Seq<char>, JsonView)>, name: Seq<char>) -> nat
    decreases members.len(),
{
    if members.len() == 0 {
        0
    } else if members.last().0 == name {
        occurrences(members.drop_last(), name) + 1
    } else {
        occurrences(members.drop_last(), name)
    }
}

/// Whether `json` is an object that holds the name `name` more than once.
pub open spec fn repeats(json: JsonView, name: Seq<char>) -> bool {
    json matches JsonView::Object(members) && occurrences(members, name) > 1
}

impl Json {
    /// Whether this value is an object that holds the name `name` more than
    /// once.
    pub fn repeats(&self, name: &str) -> (r: bool)
        ensures
            r == repeats(self@, name@),
    {
        let members = match self.members() {
            Some(members) => members,
            None => {
                return false;
            },
        };
        let wanted = String::from_str(name);
        let ghost all = members.deep_view();
        let mut found: usize = 0;
        let mut i: usize = 0;
        while i < members.len()
            invariant
                i <= members.len(),
                wanted@ == name@,
                all == members.deep_view(),
                found <= i,
                found == occurrences(all.take(i as int), name@),
            decreases members.len() - i,
        {
            assert(all.take(i as int + 1).drop_last() =~= all.take(i as int));
            assert(all.take(i as int + 1).last() == all[i as int]);
            assert(all[i as int].0 == members@[i as int].0@);
            if members[i].0 == wanted {
                found += 1;
            }
            i += 1;
        }
        assert(all.take(i as int) =~= all);
        found > 1
    }

    /// Whether this value is an object.
    pub fn is_object(&self) -> (r: bool)
        ensures
            r == (self@ is Object),
    {
        match self {
            Json::Object(_) => true,
            _ => false,
        }
    }

    /// The member `name` of an object: the first one of that name.
    pub fn get(&self, name: &str) -> (r: Option<&Json>)
        ensures
            match r {
                Some(value) => field(self@, name@) == Some(value@),
                None => field(self@, name@) is None,
            },
    {
        let members = self.members()?;
        let wanted = String::from_str(name);
        let ghost all = members.deep_view();
        assert(all.skip(0) =~= all);
        let mut i: usize = 0;
        while i < members.len()
            invariant
                i <= members.len(),
                wanted@ == name@,
                all == members.deep_view(),
                self@ == JsonView::Object(all),
                lookup(all, name@) == lookup(all.skip(i as int), name@),
            decreases members.len() - i,
        {
            assert(all.skip(i as int).skip(1) =~= all.skip(i as int + 1));
            assert(all[i as int] == (members@[i as int].0@, members@[i as int].1@));
            if members[i].0 == wanted {
                return Some(&members[i].1);
            }
            i += 1;
        }
        None
    }
}

/// Records that can be read from a JSON value.
pub trait FromJson: Sized + DeepView {
    /// Whether `json` stands for the record `value`.
    spec fn matches(json: JsonView, value: Self::V) -> bool;

    /// Why `json` stands for no record: the first value at fault, going
    /// through the members in the order of the record and through items in
    /// their order. Nothing where `json` stands for a record.
    spec fn fault(json: JsonView) -> Option<SchemaErrorView>;

    /// A JSON value stands for at most one record.
    proof fn lemma_unique(json: JsonView, a: Self::V, b: Self::V)
        requires
            Self::matches(json, a),
            Self::matches(json, b),
        ensures
            a == b,
    ;

    /// Reads the record that `json` stands for; where it stands for none,
    /// says where the first fault is.
    fn from_json(json: &Json) -> (r: Result<Self, SchemaError>)
        ensures
            match r {
                Ok(value) => Self::matches(json@, value.deep_view()) && Self::fault(json@) is None,
                Err(e) => Self::fault(json@) == Some(e@) && forall|value: Self::V|
                    !Self::matches(json@, value),
            },
    ;
}

impl FromJson for Json {
    open spec fn matches(json: JsonView, value: JsonView) -> bool {
        json == value
    }

    open spec fn fault(json: JsonView) -> Option<SchemaErrorView> {
        None
    }

    proof fn lemma_unique(json: JsonView, a: JsonView, b: JsonView) {
    }

    fn from_json(json: &Json) -> (r: Result<Json, SchemaError>) {
        Ok(json.duplicate())
    }
}

impl FromJson for String {
    open spec fn matches(json: JsonView, value: Seq<char>) -> bool {
        json == JsonView::String(value)
    }

    open spec fn fault(json: JsonView) -> Option<SchemaErrorView> {
        if json is String {
            None
        } else {
            Some(here(Problem::Mistyped))
        }
    }

    proof fn lemma_unique(json: JsonView, a: Seq<char>, b: Seq<char>) {
    }

    fn from_json(json: &Json) -> (r: Result<String, SchemaError>) {
        match json {
            Json::String(s) => Ok(s.clone()),
            _ => Err(SchemaError::here(Problem::Mistyped)),
        }
    }
}

impl FromJson for bool {
    open spec fn matches(json: JsonView, value: bool) -> bool {
        json == JsonView::Bool(value)
    }

    open spec fn fault(json: JsonView) -> Option<SchemaErrorView> {
        if json is Bool {
            None
        } else {
            Some(here(Problem::Mistyped))
        }
    }

    proof fn lemma_unique(json: JsonView, a: bool, b: bool) {
    }

    fn from_json(json: &Json) -> (r: Result<bool, SchemaError>) {
        match json {
            Json::Bool(b) => Ok(*b),
            _ => Err(SchemaError::here(Problem::Mistyped)),
        }
    }
}

impl FromJson for usize {
    open spec fn matches(json: JsonView, value: usize) -> bool {
        json matches JsonView::Number(NumberView::PosInt(n)) && n == value
    }

    open spec fn fault(json: JsonView) -> Option<SchemaErrorView> {
        if json matches JsonView::Number(NumberView::PosInt(n)) && n <= usize::MAX {
            None
        } else {
            Some(here(Problem::Mistyped))
        }
    }

    proof fn lemma_unique(json: JsonView, a: usize, b: usize) {
    }

    fn from_json(json: &Json) -> (r: Result<usize, SchemaError>) {
        match json {
            Json::Number(Number::PosInt(n)) => {
                if *n <= usize::MAX as u64 {
                    Ok(*n as usize)
                } else {
                    Err(SchemaError::here(Problem::Mistyped))
                }
            },
            _ => Err(SchemaError::here(Problem::Mistyped)),
        }
    }
}

/// The first fault in the items of a list from the place `from` on.
pub open spec fn items_fault<T: FromJson>(items: Seq<JsonView>, from: int) -> Option<
    SchemaErrorView,
>
    decreases items.len() - from,
{
    if from < 0 || from >= items.len() {
        None
    } else {
        match T::fault(items[from]) {
            Some(fault) => Some(under(StepView::Item(from as usize), fault)),
            None => items_fault::<T>(items, from + 1),
        }
    }
}

impl<T: FromJson> FromJson for Vec<T> {
    open spec fn matches(json: JsonView, value: Seq<T::V>) -> bool {
        json matches JsonView::Array(items) && items.len() == value.len() && forall|i: int|
            0 <= i < items.len() ==> T::matches(items[i], #[trigger] value[i])
    }

    open spec fn fault(json: JsonView) -> Option<SchemaErrorView> {
        match json {
            JsonView::Array(items) => items_fault::<T>(items, 0),
            _ => Some(here(Problem::Mistyped)),
        }
    }

    proof fn lemma_unique(json: JsonView, a: Seq<T::V>, b: Seq<T::V>) {
        let items = json->Array_0;
        assert forall|i: int| 0 <= i < a.len() implies a[i] == b[i] by {
            T::lemma_unique(items[i], a[i], b[i]);
        }
        assert(a =~= b);
    }

    fn from_json(json: &Json) -> (r: Result<Vec<T>, SchemaError>) {
        let items = match json.items() {
            Some(items) => items,
            None => {
                return Err(SchemaError::here(Problem::Mistyped));
            },
        };
        let ghost all = items.deep_view();
        let mut out: Vec<T> = Vec::new();
        let mut i: usize = 0;
        while i < items.len()
            invariant
                i <= items.len(),
                out.len() == i,
                all == items.deep_view(),
                json@ == JsonView::Array(all),
                items_fault::<T>(all, 0) == items_fault::<T>(all, i as int),
                forall|k: int| 0 <= k < i ==> T::matches(all[k], #[trigger] out@[k].deep_view()),
            decreases items.len() - i,
        {
            assert(all[i as int] == items@[i as int]@);
            match T::from_json(&items[i]) {
                Ok(item) => {
                    out.push(item);
                },
                Err(e) => {
                    assert forall|value: Seq<T::V>| !Self::matches(json@, value) by {
                        if Self::matches(json@, value) {
                            assert(T::matches(all[i as int], value[i as int]));
                        }
                    }
                    return Err(e.under(Step::Item(i)));
                },
            }
            i += 1;
        }
        Ok(out)
    }
}

/// The member `name` of `json` is there, once, and stands for `value`.
pub open spec fn member_matches<T: FromJson>(json: JsonView, name: Seq<char>, value: T::V) -> bool {
    field(json, name) matches Some(member) && !repeats(json, name) && T::matches(member, value)
}

/// The member `name` of `json` is there at most once and stands for what
/// `value` holds; where the member is missing or `null`, `value` holds
/// nothing.
pub open spec fn optional_member_matches<T: FromJson>(
    json: JsonView,
    name: Seq<char>,
    value: Option<T::V>,
) -> bool {
    !repeats(json, name) && match field(json, name) {
        None | Some(JsonView::Null) => value is None,
        Some(member) => value matches Some(inner) && T::matches(member, inner),
    }
}

/// The fault in the member `name` of `json`, which has to be there: that it
/// is missing, that its name is repeated, or the fault inside it.
pub open spec fn member_fault<T: FromJson>(json: JsonView, name: Seq<char>) -> Option<
    SchemaErrorView,
> {
    match field(json, name) {
        None => Some(under(StepView::Member(name), here(Problem::Missing))),
        Some(member) => if repeats(json, name) {
            Some(under(StepView::Member(name), here(Problem::Repeated)))
        } else {
            match T::fault(member) {
                Some(fault) => Some(under(StepView::Member(name), fault)),
                None => None,
            }
        },
    }
}

/// The fault in the member `name` of `json`, which may be missing or `null`:
/// that its name is repeated, or the fault inside it where it is there.
pub open spec fn optional_member_fault<T: FromJson>(json: JsonView, name: Seq<char>) -> Option<
    SchemaErrorView,
> {
    if repeats(json, name) {
        Some(under(StepView::Member(name), here(Problem::Repeated)))
    } else {
        match field(json, name) {
            None | Some(JsonView::Null) => None,
            Some(member) => match T::fault(member) {
                Some(fault) => Some(under(StepView::Member(name), fault)),
                None => None,
            },
        }
    }
}

/// A member stands for at most one value.
pub proof fn lemma_member_unique<T: FromJson>(json: JsonView, name: Seq<char>, a: T::V, b: T::V)
    requires
        member_matches::<T>(json, name, a),
        member_matches::<T>(json, name, b),
    ensures
        a == b,
{
    T::lemma_unique(field(json, name)->0, a, b);
}

/// An optional member stands for at most one value.
pub proof fn lemma_optional_member_unique<T: FromJson>(
    json: JsonView,
    name: Seq<char>,
    a: Option<T::V>,
    b: Option<T::V>,
)
    requires
        optional_member_matches::<T>(json, name, a),
        optional_member_matches::<T>(json, name, b),
    ensures
        a == b,
{
    if a is Some {
        T::lemma_unique(field(json, name)->0, a->0, b->0);
    }
}

/// Reads the member `name`, which has to be there, and only once.
pub fn required<T: FromJson>(json: &Json, name: &str) -> (r: Result<T, SchemaError>)
    ensures
        match r {
            Ok(value) => member_matches::<T>(json@, name@, value.deep_view())
                && member_fault::<T>(json@, name@) is None,
            Err(e) => member_fault::<T>(json@, name@) == Some(e@) && forall|value: T::V|
                !member_matches::<T>(json@, name@, value),
        },
{
    match json.get(name) {
        Some(member) => {
            if json.repeats(name) {
                let repeated = SchemaError::here(Problem::Repeated);
                return Err(repeated.under(Step::Member(String::from_str(name))));
            }
            match T::from_json(member) {
                Ok(value) => Ok(value),
                Err(e) => Err(e.under(Step::Member(String::from_str(name)))),
            }
        },
        None => {
            let missing = SchemaError::here(Problem::Missing);
            Err(missing.under(Step::Member(String::from_str(name))))
        },
    }
}

/// Reads the member `name`, which may be missing or `null`, but not there
/// more than once.
pub fn optional<T: FromJson>(json: &Json, name: &str) -> (r: Result<Option<T>, SchemaError>)
    ensures
        match r {
            Ok(value) => optional_member_matches::<T>(json@, name@, value.deep_view())
                && optional_member_fault::<T>(json@, name@) is None,
            Err(e) => optional_member_fault::<T>(json@, name@) == Some(e@) && forall|
                value: Option<T::V>,
            | !optional_member_matches::<T>(json@, name@, value),
        },
{
    if json.repeats(name) {
        let repeated = SchemaError::here(Problem::Repeated);
        return Err(repeated.under(Step::Member(String::from_str(name))));
    }
    match json.get(name) {
        None => Ok(None),
        Some(Json::Null) => Ok(None),
        Some(member) => match T::from_json(member) {
            Ok(value) => Ok(Some(value)),
            Err(e) => Err(e.under(Step::Member(String::from_str(name)))),
        },
    }
}

/// Whether `r` is what reading `json` as a `T` has to give: the record that
/// `json` stands for, or nothing where it stands for none.
pub open spec fn read_as<T: FromJson>(json: JsonView, r: Option<T::V>) -> bool {
    match r {
        Some(value) => T::matches(json, value),
        None => forall|value: T::V| !T::matches(json, value),
    }
}

/// Reading recovers a record exactly: a value that stands for `value` is
/// read as `value`, and as nothing else.
pub proof fn lemma_read_exactly<T: FromJson>(json: JsonView, value: T::V, r: Option<T::V>)
    requires
        T::matches(json, value),
        read_as::<T>(json, r),
    ensures
        r == Some(value),
{
    T::lemma_unique(json, value, r->0);
}

/// An optional member that is missing or `null` is read as absent, and one
/// that is there is read as present, with the value it stands for.
pub proof fn lemma_optional_member_presence<T: FromJson>(
    json: JsonView,
    name: Seq<char>,
    value: Option<T::V>,
)
    requires
        optional_member_matches::<T>(json, name, value),
    ensures
        value is None <==> (field(json, name) is None || field(json, name) == Some(
            JsonView::Null,
        )),
        value matches Some(inner) ==> T::matches(field(json, name)->0, inner),
{
}

/// A member whose name is repeated stands for nothing, whether it has to be
/// there or not: none of the values under the name is taken for it.
pub proof fn lemma_repeated_member_refused<T: FromJson>(
    json: JsonView,
    name: Seq<char>,
    value: T::V,
    optional: Option<T::V>,
)
    requires
        repeats(json, name),
    ensures
        !member_matches::<T>(json, name, value),
        !optional_member_matches::<T>(json, name, optional),
        member_fault::<T>(json, name) == Some(
            under(StepView::Member(name), here(Problem::Repeated)),
        ),
        optional_member_fault::<T>(json, name) == Some(
            under(StepView::Member(name), here(Problem::Repeated)),
        ),
{
    lemma_repeated_is_found(json->Object_0, name);
}

/// A name that occurs among the members is found by `lookup`.
proof fn lemma_repeated_is_found(members: Seq<(Seq<char>, JsonView)>, name: Seq<char>)
    requires
        occurrences(members, name) > 0,
    ensures
        lookup(members, name) is Some,
    decreases members.len(),
{
    if members.len() > 0 {
        if members[0].0 != name {
            lemma_occurrences_skip(members, name);
            lemma_repeated_is_found(members.skip(1), name);
        }
    }
}

/// Counting from the front gives what counting from the back gives.
proof fn lemma_occurrences_skip(members: Seq<(Seq<char>, JsonView)>, name: Seq<char>)
    requires
        members.len() > 0,
    ensures
        occurrences(members, name) == occurrences(members.skip(1), name) + if members[0].0
            == name {
            1nat
        } else {
            0nat
        },
    decreases members.len(),
{
    if members.len() == 1 {
        assert(members.drop_last() =~= members.skip(1));
        assert(members.last() == members[0]);
    } else {
        lemma_occurrences_skip(members.drop_last(), name);
        assert(members.skip(1).drop_last() =~= members.drop_last().skip(1));
        assert(members.skip(1).last() == members.last());
        assert(members.drop_last()[0] == members[0]);
    }
}

} // verus!

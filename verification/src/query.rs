//! The options of a request for flags, and their place in the address.

use crate::form::{form_urldecoded, form_urlencoded, lemma_form_round_trip};
use vstd::pervasive::unreached;
use vstd::prelude::*;
use vstd::string::StringExecFns;

verus! {

/// `serde_urlencoded::ser::Error`, which the encoder returns for values it
/// cannot write. Pairs of strings are not among them.
#[verifier::external_type_specification]
#[verifier::external_body]
pub struct ExEncodeError(serde_urlencoded::ser::Error);

/// Which flags of a project to list.
#[derive(Debug)]
pub struct FlagOptions {
    /// Only the settings of this environment.
    pub env: Option<String>,
    /// Only the flags that carry this tag.
    pub tag: Option<String>,
}

/// The mathematical value of a [`FlagOptions`].
pub struct FlagOptionsView {
    pub env: Option<Seq<char>>,
    pub tag: Option<Seq<char>>,
}

impl DeepView for FlagOptions {
    type V = FlagOptionsView;

    open spec fn deep_view(&self) -> FlagOptionsView {
        FlagOptionsView { env: self.env.deep_view(), tag: self.tag.deep_view() }
    }
}

impl View for FlagOptions {
    type V = FlagOptionsView;

    open spec fn view(&self) -> FlagOptionsView {
        self.deep_view()
    }
}

impl Default for FlagOptions {
    /// No restriction.
    fn default() -> (options: FlagOptions)
        ensures
            options@ == (FlagOptionsView { env: None, tag: None }),
    {
        FlagOptions { env: None, tag: None }
    }
}

/// The parameters that stand for `options`: one for each restriction that is
/// set, `env` before `tag`.
pub open spec fn query_pairs(options: FlagOptionsView) -> Seq<(Seq<char>, Seq<char>)> {
    let env = match options.env {
        Some(env) => seq![("env"@, env)],
        None => seq![],
    };
    let tag = match options.tag {
        Some(tag) => seq![("tag"@, tag)],
        None => seq![],
    };
    env + tag
}

/// `serde_urlencoded::to_string` on a list of pairs of strings: it always
/// succeeds, with the form encoding of the pairs in their order.
#[verifier::external_body]
fn urlencode(pairs: &Vec<(String, String)>) -> (r: Result<String, serde_urlencoded::ser::Error>)
    ensures
        r is Ok,
        r->Ok_0@ == form_urlencoded(pairs.deep_view()),
{
    serde_urlencoded::to_string(pairs)
}

impl FlagOptions {
    /// The parameters that stand for these options.
    pub fn pairs(&self) -> (pairs: Vec<(String, String)>)
        ensures
            pairs.deep_view() == query_pairs(self@),
    {
        let mut pairs: Vec<(String, String)> = Vec::new();
        if let Some(env) = &self.env {
            pairs.push((String::from_str("env"), env.clone()));
        }
        if let Some(tag) = &self.tag {
            pairs.push((String::from_str("tag"), tag.clone()));
        }
        assert(pairs.deep_view() =~= query_pairs(self@));
        pairs
    }

    /// The query of an address that stands for these options. It is empty
    /// where no restriction is set.
    pub fn query(&self) -> (query: String)
        ensures
            query@ == form_urlencoded(query_pairs(self@)),
    {
        let pairs = self.pairs();
        match urlencode(&pairs) {
            Ok(query) => query,
            Err(_) => unreached(),
        }
    }
}

/// The value of the first of `pairs` that is named `name`.
pub open spec fn value_of(pairs: Seq<(Seq<char>, Seq<char>)>, name: Seq<char>) -> Option<Seq<char>>
    decreases pairs.len(),
{
    if pairs.len() == 0 {
        None
    } else if pairs[0].0 == name {
        Some(pairs[0].1)
    } else {
        value_of(pairs.skip(1), name)
    }
}

/// The options that a list of parameters stands for.
pub open spec fn options_of(pairs: Seq<(Seq<char>, Seq<char>)>) -> FlagOptionsView {
    FlagOptionsView { env: value_of(pairs, "env"@), tag: value_of(pairs, "tag"@) }
}

/// The query of a set of options can be read back: reading it gives the
/// parameters it was written for, and these give the options, each value
/// unchanged and each unset restriction still unset.
pub proof fn lemma_query_round_trip(options: FlagOptionsView)
    ensures
        form_urldecoded(form_urlencoded(query_pairs(options))) == Some(query_pairs(options)),
        options_of(query_pairs(options)) == options,
{
    lemma_form_round_trip(query_pairs(options));
    reveal_strlit("env");
    reveal_strlit("tag");
    assert("env"@ != "tag"@) by {
        assert("env"@[0] == 'e');
        assert("tag"@[0] == 't');
    }
    let pairs = query_pairs(options);
    reveal_with_fuel(value_of, 3);
    if options.env is Some && options.tag is Some {
        assert(pairs.skip(1) =~= seq![("tag"@, options.tag->0)]);
    }
}

/// Options that restrict nothing have the empty query: no name, no `=`.
pub proof fn lemma_no_options_no_query(options: FlagOptionsView)
    requires
        options.env is None,
        options.tag is None,
    ensures
        form_urlencoded(query_pairs(options)) == Seq::<char>::empty(),
{
    assert(query_pairs(options) =~= Seq::empty());
}

} // verus!

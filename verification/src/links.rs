//! Hyperlinks that the service attaches to its records.

use crate::decode::{
    lemma_member_unique, member_fault, member_matches, required, FromJson,
};
use crate::error::{here, Problem, SchemaError, SchemaErrorView};
use crate::json::{Json, JsonView};
use vstd::prelude::*;

verus! {

/// A hyperlink.
#[derive(Debug)]
pub struct Link {
    pub href: String,
    /// The media type behind the link; `type` in JSON.
    pub link_type: String,
}

/// The mathematical value of a [`Link`].
pub struct LinkView {
    pub href: Seq<char>,
    pub link_type: Seq<char>,
}

impl DeepView for Link {
    type V = LinkView;

    open spec fn deep_view(&self) -> LinkView {
        LinkView { href: self.href.deep_view(), link_type: self.link_type.deep_view() }
    }
}

impl View for Link {
    type V = LinkView;

    open spec fn view(&self) -> LinkView {
        self.deep_view()
    }
}

impl FromJson for Link {
    open spec fn matches(json: JsonView, value: LinkView) -> bool {
        &&& json is Object
        &&& member_matches::<String>(json, "href"@, value.href)
        &&& member_matches::<String>(json, "type"@, value.link_type)
    }

    open spec fn fault(json: JsonView) -> Option<SchemaErrorView> {
        if !(json is Object) {
            Some(here(Problem::Mistyped))
        } else if member_fault::<String>(json, "href"@) is Some {
            member_fault::<String>(json, "href"@)
        } else if member_fault::<String>(json, "type"@) is Some {
            member_fault::<String>(json, "type"@)
        } else {
            None
        }
    }

    proof fn lemma_unique(json: JsonView, a: LinkView, b: LinkView) {
        lemma_member_unique::<String>(json, "href"@, a.href, b.href);
        lemma_member_unique::<String>(json, "type"@, a.link_type, b.link_type);
    }

    fn from_json(json: &Json) -> (r: Result<Link, SchemaError>) {
        if !json.is_object() {
            return Err(SchemaError::here(Problem::Mistyped));
        }
        let href = required::<String>(json, "href")?;
        let link_type = required::<String>(json, "type")?;
        Ok(Link { href, link_type })
    }
}

/// The links of a record: the one to the record itself.
#[derive(Debug)]
pub struct Links {
    /// `self` in JSON.
    pub _self: Link,
}

/// The mathematical value of a [`Links`].
pub struct LinksView {
    pub _self: LinkView,
}

impl DeepView for Links {
    type V = LinksView;

    open spec fn deep_view(&self) -> LinksView {
        LinksView { _self: self._self.deep_view() }
    }
}

impl View for Links {
    type V = LinksView;

    open spec fn view(&self) -> LinksView {
        self.deep_view()
    }
}

impl FromJson for Links {
    open spec fn matches(json: JsonView, value: LinksView) -> bool {
        &&& json is Object
        &&& member_matches::<Link>(json, "self"@, value._self)
    }

    open spec fn fault(json: JsonView) -> Option<SchemaErrorView> {
        if !(json is Object) {
            Some(here(Problem::Mistyped))
        } else if member_fault::<Link>(json, "self"@) is Some {
            member_fault::<Link>(json, "self"@)
        } else {
            None
        }
    }

    proof fn lemma_unique(json: JsonView, a: LinksView, b: LinksView) {
        lemma_member_unique::<Link>(json, "self"@, a._self, b._self);
    }

    fn from_json(json: &Json) -> (r: Result<Links, SchemaError>) {
        if !json.is_object() {
            return Err(SchemaError::here(Problem::Mistyped));
        }
        let _self = required::<Link>(json, "self")?;
        Ok(Links { _self })
    }
}
} // verus!

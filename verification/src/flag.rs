//! Feature flags.

use crate::decode::{
    field, lemma_member_unique, lemma_optional_member_unique, member_fault, member_matches,
    optional, optional_member_fault, optional_member_matches, required, FromJson,
};
use crate::environments::{lemma_repeated_key_refused, FlagEnvironments};
use crate::error::{here, Problem, SchemaError, SchemaErrorView};
use crate::json::{keys_differ, Json, JsonView};
use crate::links::{Links, LinksView};
use crate::member::{Member, MemberView};
use crate::targeting::{FeatureFlagConfig, FeatureFlagConfigView};
use vstd::prelude::*;

verus! {

/// One of the values that a flag can take.
#[derive(Debug)]
pub struct Variation {
    pub name: Option<String>,
    pub description: Option<String>,
    /// The value itself, of any JSON shape.
    pub value: Json,
}

/// The mathematical value of a [`Variation`].
pub struct VariationView {
    pub name: Option<Seq<char>>,
    pub description: Option<Seq<char>>,
    pub value: JsonView,
}

impl DeepView for Variation {
    type V = VariationView;

    open spec fn deep_view(&self) -> VariationView {
        VariationView {
            name: self.name.deep_view(),
            description: self.description.deep_view(),
            value: self.value.deep_view(),
        }
    }
}

impl View for Variation {
    type V = VariationView;

    open spec fn view(&self) -> VariationView {
        self.deep_view()
    }
}

impl FromJson for Variation {
    open spec fn matches(json: JsonView, value: VariationView) -> bool {
        &&& json is Object
        &&& optional_member_matches::<String>(json, "name"@, value.name)
        &&& optional_member_matches::<String>(json, "description"@, value.description)
        &&& member_matches::<Json>(json, "value"@, value.value)
    }

    open spec fn fault(json: JsonView) -> Option<SchemaErrorView> {
        if !(json is Object) {
            Some(here(Problem::Mistyped))
        } else if optional_member_fault::<String>(json, "name"@) is Some {
            optional_member_fault::<String>(json, "name"@)
        } else if optional_member_fault::<String>(json, "description"@) is Some {
            optional_member_fault::<String>(json, "description"@)
        } else if member_fault::<Json>(json, "value"@) is Some {
            member_fault::<Json>(json, "value"@)
        } else {
            None
        }
    }

    proof fn lemma_unique(json: JsonView, a: VariationView, b: VariationView) {
        lemma_optional_member_unique::<String>(json, "name"@, a.name, b.name);
        lemma_optional_member_unique::<String>(json, "description"@, a.description, b.description);
        lemma_member_unique::<Json>(json, "value"@, a.value, b.value);
    }

    fn from_json(json: &Json) -> (r: Result<Variation, SchemaError>) {
        if !json.is_object() {
            return Err(SchemaError::here(Problem::Mistyped));
        }
        let name = optional::<String>(json, "name")?;
        let description = optional::<String>(json, "description")?;
        let value = required::<Json>(json, "value")?;
        Ok(Variation { name, description, value })
    }
}

/// A feature flag.
#[derive(Debug)]
pub struct FeatureFlag {
    pub key: String,
    pub name: String,
    /// The kind of flag, such as `boolean` or `multivariate`.
    pub kind: String,
    pub creation_date: usize,
    /// Whether the flag is made available to client-side SDKs.
    pub include_in_snippet: bool,
    pub temporary: bool,
    pub maintainer_id: Option<String>,
    pub tags: Vec<String>,
    pub variations: Vec<Variation>,
    pub _links: Links,
    pub _maintainer: Option<Member>,
    /// The settings of the flag in each environment.
    pub environments: FlagEnvironments,
}

/// The mathematical value of a [`FeatureFlag`].
pub struct FeatureFlagView {
    pub key: Seq<char>,
    pub name: Seq<char>,
    pub kind: Seq<char>,
    pub creation_date: usize,
    pub include_in_snippet: bool,
    pub temporary: bool,
    pub maintainer_id: Option<Seq<char>>,
    pub tags: Seq<Seq<char>>,
    pub variations: Seq<VariationView>,
    pub _links: LinksView,
    pub _maintainer: Option<MemberView>,
    pub environments: Seq<(Seq<char>, FeatureFlagConfigView)>,
}

impl DeepView for FeatureFlag {
    type V = FeatureFlagView;

    open spec fn deep_view(&self) -> FeatureFlagView {
        FeatureFlagView {
            key: self.key.deep_view(),
            name: self.name.deep_view(),
            kind: self.kind.deep_view(),
            creation_date: self.creation_date.deep_view(),
            include_in_snippet: self.include_in_snippet.deep_view(),
            temporary: self.temporary.deep_view(),
            maintainer_id: self.maintainer_id.deep_view(),
            tags: self.tags.deep_view(),
            variations: self.variations.deep_view(),
            _links: self._links.deep_view(),
            _maintainer: self._maintainer.deep_view(),
            environments: self.environments.deep_view(),
        }
    }
}

impl View for FeatureFlag {
    type V = FeatureFlagView;

    open spec fn view(&self) -> FeatureFlagView {
        self.deep_view()
    }
}

impl FromJson for FeatureFlag {
    open spec fn matches(json: JsonView, value: FeatureFlagView) -> bool {
        &&& json is Object
        &&& member_matches::<String>(json, "key"@, value.key)
        &&& member_matches::<String>(json, "name"@, value.name)
        &&& member_matches::<String>(json, "kind"@, value.kind)
        &&& member_matches::<usize>(json, "creationDate"@, value.creation_date)
        &&& member_matches::<bool>(json, "includeInSnippet"@, value.include_in_snippet)
        &&& member_matches::<bool>(json, "temporary"@, value.temporary)
        &&& optional_member_matches::<String>(json, "maintainerId"@, value.maintainer_id)
        &&& member_matches::<Vec<String>>(json, "tags"@, value.tags)
        &&& member_matches::<Vec<Variation>>(json, "variations"@, value.variations)
        &&& member_matches::<Links>(json, "_links"@, value._links)
        &&& optional_member_matches::<Member>(json, "_maintainer"@, value._maintainer)
        &&& member_matches::<FlagEnvironments>(json, "environments"@, value.environments)
    }

    open spec fn fault(json: JsonView) -> Option<SchemaErrorView> {
        if !(json is Object) {
            Some(here(Problem::Mistyped))
        } else if member_fault::<String>(json, "key"@) is Some {
            member_fault::<String>(json, "key"@)
        } else if member_fault::<String>(json, "name"@) is Some {
            member_fault::<String>(json, "name"@)
        } else if member_fault::<String>(json, "kind"@) is Some {
            member_fault::<String>(json, "kind"@)
        } else if member_fault::<usize>(json, "creationDate"@) is Some {
            member_fault::<usize>(json, "creationDate"@)
        } else if member_fault::<bool>(json, "includeInSnippet"@) is Some {
            member_fault::<bool>(json, "includeInSnippet"@)
        } else if member_fault::<bool>(json, "temporary"@) is Some {
            member_fault::<bool>(json, "temporary"@)
        } else if optional_member_fault::<String>(json, "maintainerId"@) is Some {
            optional_member_fault::<String>(json, "maintainerId"@)
        } else if member_fault::<Vec<String>>(json, "tags"@) is Some {
            member_fault::<Vec<String>>(json, "tags"@)
        } else if member_fault::<Vec<Variation>>(json, "variations"@) is Some {
            member_fault::<Vec<Variation>>(json, "variations"@)
        } else if member_fault::<Links>(json, "_links"@) is Some {
            member_fault::<Links>(json, "_links"@)
        } else if optional_member_fault::<Member>(json, "_maintainer"@) is Some {
            optional_member_fault::<Member>(json, "_maintainer"@)
        } else if member_fault::<FlagEnvironments>(json, "environments"@) is Some {
            member_fault::<FlagEnvironments>(json, "environments"@)
        } else {
            None
        }
    }

    proof fn lemma_unique(json: JsonView, a: FeatureFlagView, b: FeatureFlagView) {
        lemma_member_unique::<String>(json, "key"@, a.key, b.key);
        lemma_member_unique::<String>(json, "name"@, a.name, b.name);
        lemma_member_unique::<String>(json, "kind"@, a.kind, b.kind);
        lemma_member_unique::<usize>(json, "creationDate"@, a.creation_date, b.creation_date);
        lemma_member_unique::<bool>(
            json,
            "includeInSnippet"@,
            a.include_in_snippet,
            b.include_in_snippet,
        );
        lemma_member_unique::<bool>(json, "temporary"@, a.temporary, b.temporary);
        lemma_optional_member_unique::<String>(
            json,
            "maintainerId"@,
            a.maintainer_id,
            b.maintainer_id,
        );
        lemma_member_unique::<Vec<String>>(json, "tags"@, a.tags, b.tags);
        lemma_member_unique::<Vec<Variation>>(json, "variations"@, a.variations, b.variations);
        lemma_member_unique::<Links>(json, "_links"@, a._links, b._links);
        lemma_optional_member_unique::<Member>(json, "_maintainer"@, a._maintainer, b._maintainer);
        lemma_member_unique::<FlagEnvironments>(
            json,
            "environments"@,
            a.environments,
            b.environments,
        );
    }

    fn from_json(json: &Json) -> (r: Result<FeatureFlag, SchemaError>) {
        if !json.is_object() {
            return Err(SchemaError::here(Problem::Mistyped));
        }
        let key = required::<String>(json, "key")?;
        let name = required::<String>(json, "name")?;
        let kind = required::<String>(json, "kind")?;
        let creation_date = required::<usize>(json, "creationDate")?;
        let include_in_snippet = required::<bool>(json, "includeInSnippet")?;
        let temporary = required::<bool>(json, "temporary")?;
        let maintainer_id = optional::<String>(json, "maintainerId")?;
        let tags = required::<Vec<String>>(json, "tags")?;
        let variations = required::<Vec<Variation>>(json, "variations")?;
        let _links = required::<Links>(json, "_links")?;
        let _maintainer = optional::<Member>(json, "_maintainer")?;
        let environments = required::<FlagEnvironments>(json, "environments")?;
        Ok(FeatureFlag {
            key,
            name,
            kind,
            creation_date,
            include_in_snippet,
            temporary,
            maintainer_id,
            tags,
            variations,
            _links,
            _maintainer,
            environments,
        })
    }
}

/// The answer to a request for the flags of a project.
#[derive(Debug)]
pub struct FeatureFlags {
    pub _links: Links,
    pub items: Vec<FeatureFlag>,
}

/// The mathematical value of a [`FeatureFlags`].
pub struct FeatureFlagsView {
    pub _links: LinksView,
    pub items: Seq<FeatureFlagView>,
}

impl DeepView for FeatureFlags {
    type V = FeatureFlagsView;

    open spec fn deep_view(&self) -> FeatureFlagsView {
        FeatureFlagsView { _links: self._links.deep_view(), items: self.items.deep_view() }
    }
}

impl View for FeatureFlags {
    type V = FeatureFlagsView;

    open spec fn view(&self) -> FeatureFlagsView {
        self.deep_view()
    }
}

impl FromJson for FeatureFlags {
    open spec fn matches(json: JsonView, value: FeatureFlagsView) -> bool {
        &&& json is Object
        &&& member_matches::<Links>(json, "_links"@, value._links)
        &&& member_matches::<Vec<FeatureFlag>>(json, "items"@, value.items)
    }

    open spec fn fault(json: JsonView) -> Option<SchemaErrorView> {
        if !(json is Object) {
            Some(here(Problem::Mistyped))
        } else if member_fault::<Links>(json, "_links"@) is Some {
            member_fault::<Links>(json, "_links"@)
        } else if member_fault::<Vec<FeatureFlag>>(json, "items"@) is Some {
            member_fault::<Vec<FeatureFlag>>(json, "items"@)
        } else {
            None
        }
    }

    proof fn lemma_unique(json: JsonView, a: FeatureFlagsView, b: FeatureFlagsView) {
        lemma_member_unique::<Links>(json, "_links"@, a._links, b._links);
        lemma_member_unique::<Vec<FeatureFlag>>(json, "items"@, a.items, b.items);
    }

    fn from_json(json: &Json) -> (r: Result<FeatureFlags, SchemaError>) {
        if !json.is_object() {
            return Err(SchemaError::here(Problem::Mistyped));
        }
        let _links = required::<Links>(json, "_links")?;
        let items = required::<Vec<FeatureFlag>>(json, "items")?;
        Ok(FeatureFlags { _links, items })
    }
}
/// The environments of a decoded flag are those of the document: one entry
/// for each member of the document's `environments`, under the member's name
/// and in the member's place. No name is lost, and no two members share an
/// entry: a document that spells a key twice is not decoded at all.
pub proof fn lemma_environments_preserved(json: JsonView, flag: FeatureFlagView)
    requires
        FeatureFlag::matches(json, flag),
    ensures
        field(json, "environments"@) matches Some(JsonView::Object(members))
            && flag.environments.len() == members.len() && forall|i: int|
            0 <= i < members.len() ==> (#[trigger] flag.environments[i]).0 == members[i].0
                && FeatureFlagConfig::matches(members[i].1, flag.environments[i].1),
        keys_differ(flag.environments),
{
    let members = field(json, "environments"@)->0->Object_0;
    assert forall|i: int, j: int| 0 <= i < j < flag.environments.len() implies (
    #[trigger] flag.environments[i]).0 != (#[trigger] flag.environments[j]).0 by {
        assert(members[i].0 != members[j].0);
    }
}

/// A document whose `environments` spell a key twice stands for no flag, so
/// decoding it fails: the repetition is not collapsed in silence.
pub proof fn lemma_repeated_environment_refused(
    json: JsonView,
    i: int,
    j: int,
    flag: FeatureFlagView,
)
    requires
        field(json, "environments"@) is Some,
        field(json, "environments"@)->0 is Object,
        0 <= i < j < field(json, "environments"@)->0->Object_0.len(),
        field(json, "environments"@)->0->Object_0[i].0 == field(
            json,
            "environments"@,
        )->0->Object_0[j].0,
    ensures
        !FeatureFlag::matches(json, flag),
{
    lemma_repeated_key_refused(field(json, "environments"@)->0, i, j, flag.environments);
}

} // verus!

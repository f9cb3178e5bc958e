//! Projects and their environments.

use crate::decode::{
    field, lemma_member_unique, lemma_read_exactly, member_fault, member_matches, read_as,
    required, FromJson,
};
use crate::error::{here, Problem, SchemaError, SchemaErrorView};
use crate::json::{Json, JsonView};
use crate::links::{Links, LinksView};
use vstd::prelude::*;

verus! {

/// The pub/sub channel over which an environment announces changes.
#[derive(Debug)]
pub struct Pubnub {
    pub channel: String,
    pub cipher_key: String,
}

/// The mathematical value of a [`Pubnub`].
pub struct PubnubView {
    pub channel: Seq<char>,
    pub cipher_key: Seq<char>,
}

impl DeepView for Pubnub {
    type V = PubnubView;

    open spec fn deep_view(&self) -> PubnubView {
        PubnubView { channel: self.channel.deep_view(), cipher_key: self.cipher_key.deep_view() }
    }
}

impl View for Pubnub {
    type V = PubnubView;

    open spec fn view(&self) -> PubnubView {
        self.deep_view()
    }
}

impl FromJson for Pubnub {
    open spec fn matches(json: JsonView, value: PubnubView) -> bool {
        &&& json is Object
        &&& member_matches::<String>(json, "channel"@, value.channel)
        &&& member_matches::<String>(json, "cipherKey"@, value.cipher_key)
    }

    open spec fn fault(json: JsonView) -> Option<SchemaErrorView> {
        if !(json is Object) {
            Some(here(Problem::Mistyped))
        } else if member_fault::<String>(json, "channel"@) is Some {
            member_fault::<String>(json, "channel"@)
        } else if member_fault::<String>(json, "cipherKey"@) is Some {
            member_fault::<String>(json, "cipherKey"@)
        } else {
            None
        }
    }

    proof fn lemma_unique(json: JsonView, a: PubnubView, b: PubnubView) {
        lemma_member_unique::<String>(json, "channel"@, a.channel, b.channel);
        lemma_member_unique::<String>(json, "cipherKey"@, a.cipher_key, b.cipher_key);
    }

    fn from_json(json: &Json) -> (r: Result<Pubnub, SchemaError>) {
        if !json.is_object() {
            return Err(SchemaError::here(Problem::Mistyped));
        }
        let channel = required::<String>(json, "channel")?;
        let cipher_key = required::<String>(json, "cipherKey")?;
        Ok(Pubnub { channel, cipher_key })
    }
}

/// A deployment context of a project, with keys and settings of its own.
#[derive(Debug)]
pub struct Environment {
    pub _id: String,
    pub _pubnub: Pubnub,
    pub key: String,
    pub name: String,
    /// The key of server-side SDKs.
    pub api_key: String,
    /// The key of mobile SDKs.
    pub mobile_key: String,
    /// The colour that marks the environment in the dashboard.
    pub color: String,
    /// How long SDKs may cache flag settings.
    pub default_ttl: usize,
    pub secure_mode: bool,
}

/// The mathematical value of a [`Environment`].
pub struct EnvironmentView {
    pub _id: Seq<char>,
    pub _pubnub: PubnubView,
    pub key: Seq<char>,
    pub name: Seq<char>,
    pub api_key: Seq<char>,
    pub mobile_key: Seq<char>,
    pub color: Seq<char>,
    pub default_ttl: usize,
    pub secure_mode: bool,
}

impl DeepView for Environment {
    type V = EnvironmentView;

    open spec fn deep_view(&self) -> EnvironmentView {
        EnvironmentView {
            _id: self._id.deep_view(),
            _pubnub: self._pubnub.deep_view(),
            key: self.key.deep_view(),
            name: self.name.deep_view(),
            api_key: self.api_key.deep_view(),
            mobile_key: self.mobile_key.deep_view(),
            color: self.color.deep_view(),
            default_ttl: self.default_ttl.deep_view(),
            secure_mode: self.secure_mode.deep_view(),
        }
    }
}

impl View for Environment {
    type V = EnvironmentView;

    open spec fn view(&self) -> EnvironmentView {
        self.deep_view()
    }
}

impl FromJson for Environment {
    open spec fn matches(json: JsonView, value: EnvironmentView) -> bool {
        &&& json is Object
        &&& member_matches::<String>(json, "_id"@, value._id)
        &&& member_matches::<Pubnub>(json, "_pubnub"@, value._pubnub)
        &&& member_matches::<String>(json, "key"@, value.key)
        &&& member_matches::<String>(json, "name"@, value.name)
        &&& member_matches::<String>(json, "apiKey"@, value.api_key)
        &&& member_matches::<String>(json, "mobileKey"@, value.mobile_key)
        &&& member_matches::<String>(json, "color"@, value.color)
        &&& member_matches::<usize>(json, "defaultTtl"@, value.default_ttl)
        &&& member_matches::<bool>(json, "secureMode"@, value.secure_mode)
    }

    open spec fn fault(json: JsonView) -> Option<SchemaErrorView> {
        if !(json is Object) {
            Some(here(Problem::Mistyped))
        } else if member_fault::<String>(json, "_id"@) is Some {
            member_fault::<String>(json, "_id"@)
        } else if member_fault::<Pubnub>(json, "_pubnub"@) is Some {
            member_fault::<Pubnub>(json, "_pubnub"@)
        } else if member_fault::<String>(json, "key"@) is Some {
            member_fault::<String>(json, "key"@)
        } else if member_fault::<String>(json, "name"@) is Some {
            member_fault::<String>(json, "name"@)
        } else if member_fault::<String>(json, "apiKey"@) is Some {
            member_fault::<String>(json, "apiKey"@)
        } else if member_fault::<String>(json, "mobileKey"@) is Some {
            member_fault::<String>(json, "mobileKey"@)
        } else if member_fault::<String>(json, "color"@) is Some {
            member_fault::<String>(json, "color"@)
        } else if member_fault::<usize>(json, "defaultTtl"@) is Some {
            member_fault::<usize>(json, "defaultTtl"@)
        } else if member_fault::<bool>(json, "secureMode"@) is Some {
            member_fault::<bool>(json, "secureMode"@)
        } else {
            None
        }
    }

    proof fn lemma_unique(json: JsonView, a: EnvironmentView, b: EnvironmentView) {
        lemma_member_unique::<String>(json, "_id"@, a._id, b._id);
        lemma_member_unique::<Pubnub>(json, "_pubnub"@, a._pubnub, b._pubnub);
        lemma_member_unique::<String>(json, "key"@, a.key, b.key);
        lemma_member_unique::<String>(json, "name"@, a.name, b.name);
        lemma_member_unique::<String>(json, "apiKey"@, a.api_key, b.api_key);
        lemma_member_unique::<String>(json, "mobileKey"@, a.mobile_key, b.mobile_key);
        lemma_member_unique::<String>(json, "color"@, a.color, b.color);
        lemma_member_unique::<usize>(json, "defaultTtl"@, a.default_ttl, b.default_ttl);
        lemma_member_unique::<bool>(json, "secureMode"@, a.secure_mode, b.secure_mode);
    }

    fn from_json(json: &Json) -> (r: Result<Environment, SchemaError>) {
        if !json.is_object() {
            return Err(SchemaError::here(Problem::Mistyped));
        }
        let _id = required::<String>(json, "_id")?;
        let _pubnub = required::<Pubnub>(json, "_pubnub")?;
        let key = required::<String>(json, "key")?;
        let name = required::<String>(json, "name")?;
        let api_key = required::<String>(json, "apiKey")?;
        let mobile_key = required::<String>(json, "mobileKey")?;
        let color = required::<String>(json, "color")?;
        let default_ttl = required::<usize>(json, "defaultTtl")?;
        let secure_mode = required::<bool>(json, "secureMode")?;
        Ok(Environment {
            _id,
            _pubnub,
            key,
            name,
            api_key,
            mobile_key,
            color,
            default_ttl,
            secure_mode,
        })
    }
}

/// A project: a set of flags and the environments they are served in.
#[derive(Debug)]
pub struct Project {
    pub _links: Links,
    pub key: String,
    pub name: String,
    /// Whether new flags are made available to client-side SDKs.
    pub include_in_snippet_by_default: bool,
    pub environments: Vec<Environment>,
}

/// The mathematical value of a [`Project`].
pub struct ProjectView {
    pub _links: LinksView,
    pub key: Seq<char>,
    pub name: Seq<char>,
    pub include_in_snippet_by_default: bool,
    pub environments: Seq<EnvironmentView>,
}

impl DeepView for Project {
    type V = ProjectView;

    open spec fn deep_view(&self) -> ProjectView {
        ProjectView {
            _links: self._links.deep_view(),
            key: self.key.deep_view(),
            name: self.name.deep_view(),
            include_in_snippet_by_default: self.include_in_snippet_by_default.deep_view(),
            environments: self.environments.deep_view(),
        }
    }
}

impl View for Project {
    type V = ProjectView;

    open spec fn view(&self) -> ProjectView {
        self.deep_view()
    }
}

impl FromJson for Project {
    open spec fn matches(json: JsonView, value: ProjectView) -> bool {
        &&& json is Object
        &&& member_matches::<Links>(json, "_links"@, value._links)
        &&& member_matches::<String>(json, "key"@, value.key)
        &&& member_matches::<String>(json, "name"@, value.name)
        &&& member_matches::<bool>(
            json,
            "includeInSnippetByDefault"@,
            value.include_in_snippet_by_default,
        )
        &&& member_matches::<Vec<Environment>>(json, "environments"@, value.environments)
    }

    open spec fn fault(json: JsonView) -> Option<SchemaErrorView> {
        if !(json is Object) {
            Some(here(Problem::Mistyped))
        } else if member_fault::<Links>(json, "_links"@) is Some {
            member_fault::<Links>(json, "_links"@)
        } else if member_fault::<String>(json, "key"@) is Some {
            member_fault::<String>(json, "key"@)
        } else if member_fault::<String>(json, "name"@) is Some {
            member_fault::<String>(json, "name"@)
        } else if member_fault::<bool>(json, "includeInSnippetByDefault"@) is Some {
            member_fault::<bool>(json, "includeInSnippetByDefault"@)
        } else if member_fault::<Vec<Environment>>(json, "environments"@) is Some {
            member_fault::<Vec<Environment>>(json, "environments"@)
        } else {
            None
        }
    }

    proof fn lemma_unique(json: JsonView, a: ProjectView, b: ProjectView) {
        lemma_member_unique::<Links>(json, "_links"@, a._links, b._links);
        lemma_member_unique::<String>(json, "key"@, a.key, b.key);
        lemma_member_unique::<String>(json, "name"@, a.name, b.name);
        lemma_member_unique::<bool>(
            json,
            "includeInSnippetByDefault"@,
            a.include_in_snippet_by_default,
            b.include_in_snippet_by_default,
        );
        lemma_member_unique::<Vec<Environment>>(
            json,
            "environments"@,
            a.environments,
            b.environments,
        );
    }

    fn from_json(json: &Json) -> (r: Result<Project, SchemaError>) {
        if !json.is_object() {
            return Err(SchemaError::here(Problem::Mistyped));
        }
        let _links = required::<Links>(json, "_links")?;
        let key = required::<String>(json, "key")?;
        let name = required::<String>(json, "name")?;
        let include_in_snippet_by_default = required::<bool>(json, "includeInSnippetByDefault")?;
        let environments = required::<Vec<Environment>>(json, "environments")?;
        Ok(Project { _links, key, name, include_in_snippet_by_default, environments })
    }
}

/// The answer to a request for all projects.
#[derive(Debug)]
pub struct Projects {
    pub _links: Links,
    pub items: Vec<Project>,
}

/// The mathematical value of a [`Projects`].
pub struct ProjectsView {
    pub _links: LinksView,
    pub items: Seq<ProjectView>,
}

impl DeepView for Projects {
    type V = ProjectsView;

    open spec fn deep_view(&self) -> ProjectsView {
        ProjectsView { _links: self._links.deep_view(), items: self.items.deep_view() }
    }
}

impl View for Projects {
    type V = ProjectsView;

    open spec fn view(&self) -> ProjectsView {
        self.deep_view()
    }
}

impl FromJson for Projects {
    open spec fn matches(json: JsonView, value: ProjectsView) -> bool {
        &&& json is Object
        &&& member_matches::<Links>(json, "_links"@, value._links)
        &&& member_matches::<Vec<Project>>(json, "items"@, value.items)
    }

    open spec fn fault(json: JsonView) -> Option<SchemaErrorView> {
        if !(json is Object) {
            Some(here(Problem::Mistyped))
        } else if member_fault::<Links>(json, "_links"@) is Some {
            member_fault::<Links>(json, "_links"@)
        } else if member_fault::<Vec<Project>>(json, "items"@) is Some {
            member_fault::<Vec<Project>>(json, "items"@)
        } else {
            None
        }
    }

    proof fn lemma_unique(json: JsonView, a: ProjectsView, b: ProjectsView) {
        lemma_member_unique::<Links>(json, "_links"@, a._links, b._links);
        lemma_member_unique::<Vec<Project>>(json, "items"@, a.items, b.items);
    }

    fn from_json(json: &Json) -> (r: Result<Projects, SchemaError>) {
        if !json.is_object() {
            return Err(SchemaError::here(Problem::Mistyped));
        }
        let _links = required::<Links>(json, "_links")?;
        let items = required::<Vec<Project>>(json, "items")?;
        Ok(Projects { _links, items })
    }
}
/// Decoding recovers a list of projects exactly: a document whose members
/// stand for the fields of `projects` is read as `projects`, whatever else
/// the document holds and in whatever order.
pub proof fn lemma_projects_recovered(
    json: JsonView,
    projects: ProjectsView,
    r: Option<ProjectsView>,
)
    requires
        Projects::matches(json, projects),
        read_as::<Projects>(json, r),
    ensures
        r == Some(projects),
{
    lemma_read_exactly::<Projects>(json, projects, r);
}

/// What a decoded list of projects holds is what the document holds: its
/// link is the document's `_links`, and its items are the document's `items`,
/// one for one and in their order.
pub proof fn lemma_projects_fields(json: JsonView, projects: ProjectsView)
    requires
        Projects::matches(json, projects),
    ensures
        field(json, "_links"@) matches Some(links) && Links::matches(links, projects._links),
        field(json, "items"@) matches Some(JsonView::Array(items)) && items.len()
            == projects.items.len() && forall|i: int|
            0 <= i < items.len() ==> Project::matches(items[i], #[trigger] projects.items[i]),
{
}

} // verus!

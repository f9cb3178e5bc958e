//! Members of an account.

use crate::decode::{
    lemma_member_unique, lemma_optional_member_unique, member_fault, member_matches, optional,
    optional_member_fault, optional_member_matches, required, FromJson,
};
use crate::error::{here, Problem, SchemaError, SchemaErrorView};
use crate::json::{Json, JsonView};
use crate::links::{Links, LinksView};
use vstd::prelude::*;

verus! {

/// A member of the account, as embedded in the records they maintain.
#[derive(Debug)]
pub struct Member {
    pub _links: Links,
    pub _id: String,
    pub first_name: Option<String>,
    pub last_name: Option<String>,
    pub role: String,
    pub email: String,
    /// Whether the member has yet to accept the invitation.
    pub _pending_invite: Option<bool>,
    pub is_beta: Option<bool>,
    /// The names of the member's custom roles.
    pub custom_roles: Option<Vec<String>>,
}

/// The mathematical value of a [`Member`].
pub struct MemberView {
    pub _links: LinksView,
    pub _id: Seq<char>,
    pub first_name: Option<Seq<char>>,
    pub last_name: Option<Seq<char>>,
    pub role: Seq<char>,
    pub email: Seq<char>,
    pub _pending_invite: Option<bool>,
    pub is_beta: Option<bool>,
    pub custom_roles: Option<Seq<Seq<char>>>,
}

impl DeepView for Member {
    type V = MemberView;

    open spec fn deep_view(&self) -> MemberView {
        MemberView {
            _links: self._links.deep_view(),
            _id: self._id.deep_view(),
            first_name: self.first_name.deep_view(),
            last_name: self.last_name.deep_view(),
            role: self.role.deep_view(),
            email: self.email.deep_view(),
            _pending_invite: self._pending_invite.deep_view(),
            is_beta: self.is_beta.deep_view(),
            custom_roles: self.custom_roles.deep_view(),
        }
    }
}

impl View for Member {
    type V = MemberView;

    open spec fn view(&self) -> MemberView {
        self.deep_view()
    }
}

impl FromJson for Member {
    open spec fn matches(json: JsonView, value: MemberView) -> bool {
        &&& json is Object
        &&& member_matches::<Links>(json, "_links"@, value._links)
        &&& member_matches::<String>(json, "_id"@, value._id)
        &&& optional_member_matches::<String>(json, "firstName"@, value.first_name)
        &&& optional_member_matches::<String>(json, "lastName"@, value.last_name)
        &&& member_matches::<String>(json, "role"@, value.role)
        &&& member_matches::<String>(json, "email"@, value.email)
        &&& optional_member_matches::<bool>(json, "_pendingInvite"@, value._pending_invite)
        &&& optional_member_matches::<bool>(json, "isBeta"@, value.is_beta)
        &&& optional_member_matches::<Vec<String>>(json, "customRoles"@, value.custom_roles)
    }

    open spec fn fault(json: JsonView) -> Option<SchemaErrorView> {
        if !(json is Object) {
            Some(here(Problem::Mistyped))
        } else if member_fault::<Links>(json, "_links"@) is Some {
            member_fault::<Links>(json, "_links"@)
        } else if member_fault::<String>(json, "_id"@) is Some {
            member_fault::<String>(json, "_id"@)
        } else if optional_member_fault::<String>(json, "firstName"@) is Some {
            optional_member_fault::<String>(json, "firstName"@)
        } else if optional_member_fault::<String>(json, "lastName"@) is Some {
            optional_member_fault::<String>(json, "lastName"@)
        } else if member_fault::<String>(json, "role"@) is Some {
            member_fault::<String>(json, "role"@)
        } else if member_fault::<String>(json, "email"@) is Some {
            member_fault::<String>(json, "email"@)
        } else if optional_member_fault::<bool>(json, "_pendingInvite"@) is Some {
            optional_member_fault::<bool>(json, "_pendingInvite"@)
        } else if optional_member_fault::<bool>(json, "isBeta"@) is Some {
            optional_member_fault::<bool>(json, "isBeta"@)
        } else if optional_member_fault::<Vec<String>>(json, "customRoles"@) is Some {
            optional_member_fault::<Vec<String>>(json, "customRoles"@)
        } else {
            None
        }
    }

    proof fn lemma_unique(json: JsonView, a: MemberView, b: MemberView) {
        lemma_member_unique::<Links>(json, "_links"@, a._links, b._links);
        lemma_member_unique::<String>(json, "_id"@, a._id, b._id);
        lemma_optional_member_unique::<String>(json, "firstName"@, a.first_name, b.first_name);
        lemma_optional_member_unique::<String>(json, "lastName"@, a.last_name, b.last_name);
        lemma_member_unique::<String>(json, "role"@, a.role, b.role);
        lemma_member_unique::<String>(json, "email"@, a.email, b.email);
        lemma_optional_member_unique::<bool>(
            json,
            "_pendingInvite"@,
            a._pending_invite,
            b._pending_invite,
        );
        lemma_optional_member_unique::<bool>(json, "isBeta"@, a.is_beta, b.is_beta);
        lemma_optional_member_unique::<Vec<String>>(
            json,
            "customRoles"@,
            a.custom_roles,
            b.custom_roles,
        );
    }

    fn from_json(json: &Json) -> (r: Result<Member, SchemaError>) {
        if !json.is_object() {
            return Err(SchemaError::here(Problem::Mistyped));
        }
        let _links = required::<Links>(json, "_links")?;
        let _id = required::<String>(json, "_id")?;
        let first_name = optional::<String>(json, "firstName")?;
        let last_name = optional::<String>(json, "lastName")?;
        let role = required::<String>(json, "role")?;
        let email = required::<String>(json, "email")?;
        let _pending_invite = optional::<bool>(json, "_pendingInvite")?;
        let is_beta = optional::<bool>(json, "isBeta")?;
        let custom_roles = optional::<Vec<String>>(json, "customRoles")?;
        Ok(Member {
            _links,
            _id,
            first_name,
            last_name,
            role,
            email,
            _pending_invite,
            is_beta,
            custom_roles,
        })
    }
}
} // verus!

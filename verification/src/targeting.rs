//! How an environment decides which variation of a flag a user is served.
//!
//! These records are read and handed on; nothing here evaluates them.

use crate::decode::{
    lemma_member_unique, lemma_optional_member_unique, member_fault, member_matches, optional,
    optional_member_fault, optional_member_matches, required, FromJson,
};
use crate::error::{here, Problem, SchemaError, SchemaErrorView};
use crate::json::{Json, JsonView};
use vstd::prelude::*;

verus! {

/// A variation and its share of a rollout.
#[derive(Debug)]
pub struct WeightedVariation {
    /// The index of the variation in the flag's list.
    pub variation: usize,
    /// The share, in units that the service defines.
    pub weight: usize,
}

/// The mathematical value of a [`WeightedVariation`].
pub struct WeightedVariationView {
    pub variation: usize,
    pub weight: usize,
}

impl DeepView for WeightedVariation {
    type V = WeightedVariationView;

    open spec fn deep_view(&self) -> WeightedVariationView {
        WeightedVariationView {
            variation: self.variation.deep_view(),
            weight: self.weight.deep_view(),
        }
    }
}

impl View for WeightedVariation {
    type V = WeightedVariationView;

    open spec fn view(&self) -> WeightedVariationView {
        self.deep_view()
    }
}

impl FromJson for WeightedVariation {
    open spec fn matches(json: JsonView, value: WeightedVariationView) -> bool {
        &&& json is Object
        &&& member_matches::<usize>(json, "variation"@, value.variation)
        &&& member_matches::<usize>(json, "weight"@, value.weight)
    }

    open spec fn fault(json: JsonView) -> Option<SchemaErrorView> {
        if !(json is Object) {
            Some(here(Problem::Mistyped))
        } else if member_fault::<usize>(json, "variation"@) is Some {
            member_fault::<usize>(json, "variation"@)
        } else if member_fault::<usize>(json, "weight"@) is Some {
            member_fault::<usize>(json, "weight"@)
        } else {
            None
        }
    }

    proof fn lemma_unique(json: JsonView, a: WeightedVariationView, b: WeightedVariationView) {
        lemma_member_unique::<usize>(json, "variation"@, a.variation, b.variation);
        lemma_member_unique::<usize>(json, "weight"@, a.weight, b.weight);
    }

    fn from_json(json: &Json) -> (r: Result<WeightedVariation, SchemaError>) {
        if !json.is_object() {
            return Err(SchemaError::here(Problem::Mistyped));
        }
        let variation = required::<usize>(json, "variation")?;
        let weight = required::<usize>(json, "weight")?;
        Ok(WeightedVariation { variation, weight })
    }
}

/// A split of the users over several variations.
#[derive(Debug)]
pub struct Rollout {
    pub variations: Vec<WeightedVariation>,
}

/// The mathematical value of a [`Rollout`].
pub struct RolloutView {
    pub variations: Seq<WeightedVariationView>,
}

impl DeepView for Rollout {
    type V = RolloutView;

    open spec fn deep_view(&self) -> RolloutView {
        RolloutView { variations: self.variations.deep_view() }
    }
}

impl View for Rollout {
    type V = RolloutView;

    open spec fn view(&self) -> RolloutView {
        self.deep_view()
    }
}

impl FromJson for Rollout {
    open spec fn matches(json: JsonView, value: RolloutView) -> bool {
        &&& json is Object
        &&& member_matches::<Vec<WeightedVariation>>(json, "variations"@, value.variations)
    }

    open spec fn fault(json: JsonView) -> Option<SchemaErrorView> {
        if !(json is Object) {
            Some(here(Problem::Mistyped))
        } else if member_fault::<Vec<WeightedVariation>>(json, "variations"@) is Some {
            member_fault::<Vec<WeightedVariation>>(json, "variations"@)
        } else {
            None
        }
    }

    proof fn lemma_unique(json: JsonView, a: RolloutView, b: RolloutView) {
        lemma_member_unique::<Vec<WeightedVariation>>(
            json,
            "variations"@,
            a.variations,
            b.variations,
        );
    }

    fn from_json(json: &Json) -> (r: Result<Rollout, SchemaError>) {
        if !json.is_object() {
            return Err(SchemaError::here(Problem::Mistyped));
        }
        let variations = required::<Vec<WeightedVariation>>(json, "variations")?;
        Ok(Rollout { variations })
    }
}

/// One condition of a rule, on an attribute of the user.
#[derive(Debug)]
pub struct Clause {
    pub attribute: String,
    /// The name of the comparison.
    pub op: String,
    /// The values that the attribute is compared with.
    pub values: Vec<String>,
    pub negate: bool,
}

/// The mathematical value of a [`Clause`].
pub struct ClauseView {
    pub attribute: Seq<char>,
    pub op: Seq<char>,
    pub values: Seq<Seq<char>>,
    pub negate: bool,
}

impl DeepView for Clause {
    type V = ClauseView;

    open spec fn deep_view(&self) -> ClauseView {
        ClauseView {
            attribute: self.attribute.deep_view(),
            op: self.op.deep_view(),
            values: self.values.deep_view(),
            negate: self.negate.deep_view(),
        }
    }
}

impl View for Clause {
    type V = ClauseView;

    open spec fn view(&self) -> ClauseView {
        self.deep_view()
    }
}

impl FromJson for Clause {
    open spec fn matches(json: JsonView, value: ClauseView) -> bool {
        &&& json is Object
        &&& member_matches::<String>(json, "attribute"@, value.attribute)
        &&& member_matches::<String>(json, "op"@, value.op)
        &&& member_matches::<Vec<String>>(json, "values"@, value.values)
        &&& member_matches::<bool>(json, "negate"@, value.negate)
    }

    open spec fn fault(json: JsonView) -> Option<SchemaErrorView> {
        if !(json is Object) {
            Some(here(Problem::Mistyped))
        } else if member_fault::<String>(json, "attribute"@) is Some {
            member_fault::<String>(json, "attribute"@)
        } else if member_fault::<String>(json, "op"@) is Some {
            member_fault::<String>(json, "op"@)
        } else if member_fault::<Vec<String>>(json, "values"@) is Some {
            member_fault::<Vec<String>>(json, "values"@)
        } else if member_fault::<bool>(json, "negate"@) is Some {
            member_fault::<bool>(json, "negate"@)
        } else {
            None
        }
    }

    proof fn lemma_unique(json: JsonView, a: ClauseView, b: ClauseView) {
        lemma_member_unique::<String>(json, "attribute"@, a.attribute, b.attribute);
        lemma_member_unique::<String>(json, "op"@, a.op, b.op);
        lemma_member_unique::<Vec<String>>(json, "values"@, a.values, b.values);
        lemma_member_unique::<bool>(json, "negate"@, a.negate, b.negate);
    }

    fn from_json(json: &Json) -> (r: Result<Clause, SchemaError>) {
        if !json.is_object() {
            return Err(SchemaError::here(Problem::Mistyped));
        }
        let attribute = required::<String>(json, "attribute")?;
        let op = required::<String>(json, "op")?;
        let values = required::<Vec<String>>(json, "values")?;
        let negate = required::<bool>(json, "negate")?;
        Ok(Clause { attribute, op, values, negate })
    }
}

/// A targeting rule: the users that its clauses select are served a variation
/// or a rollout.
#[derive(Debug)]
pub struct Rule {
    pub variation: Option<usize>,
    pub rollout: Option<Rollout>,
    pub clause: Option<Vec<Clause>>,
}

/// The mathematical value of a [`Rule`].
pub struct RuleView {
    pub variation: Option<usize>,
    pub rollout: Option<RolloutView>,
    pub clause: Option<Seq<ClauseView>>,
}

impl DeepView for Rule {
    type V = RuleView;

    open spec fn deep_view(&self) -> RuleView {
        RuleView {
            variation: self.variation.deep_view(),
            rollout: self.rollout.deep_view(),
            clause: self.clause.deep_view(),
        }
    }
}

impl View for Rule {
    type V = RuleView;

    open spec fn view(&self) -> RuleView {
        self.deep_view()
    }
}

impl FromJson for Rule {
    open spec fn matches(json: JsonView, value: RuleView) -> bool {
        &&& json is Object
        &&& optional_member_matches::<usize>(json, "variation"@, value.variation)
        &&& optional_member_matches::<Rollout>(json, "rollout"@, value.rollout)
        &&& optional_member_matches::<Vec<Clause>>(json, "clause"@, value.clause)
    }

    open spec fn fault(json: JsonView) -> Option<SchemaErrorView> {
        if !(json is Object) {
            Some(here(Problem::Mistyped))
        } else if optional_member_fault::<usize>(json, "variation"@) is Some {
            optional_member_fault::<usize>(json, "variation"@)
        } else if optional_member_fault::<Rollout>(json, "rollout"@) is Some {
            optional_member_fault::<Rollout>(json, "rollout"@)
        } else if optional_member_fault::<Vec<Clause>>(json, "clause"@) is Some {
            optional_member_fault::<Vec<Clause>>(json, "clause"@)
        } else {
            None
        }
    }

    proof fn lemma_unique(json: JsonView, a: RuleView, b: RuleView) {
        lemma_optional_member_unique::<usize>(json, "variation"@, a.variation, b.variation);
        lemma_optional_member_unique::<Rollout>(json, "rollout"@, a.rollout, b.rollout);
        lemma_optional_member_unique::<Vec<Clause>>(json, "clause"@, a.clause, b.clause);
    }

    fn from_json(json: &Json) -> (r: Result<Rule, SchemaError>) {
        if !json.is_object() {
            return Err(SchemaError::here(Problem::Mistyped));
        }
        let variation = optional::<usize>(json, "variation")?;
        let rollout = optional::<Rollout>(json, "rollout")?;
        let clause = optional::<Vec<Clause>>(json, "clause")?;
        Ok(Rule { variation, rollout, clause })
    }
}

/// The users that are served one variation whatever the rules say.
#[derive(Debug)]
pub struct Target {
    /// The keys of the users.
    pub values: Vec<String>,
    pub variation: usize,
}

/// The mathematical value of a [`Target`].
pub struct TargetView {
    pub values: Seq<Seq<char>>,
    pub variation: usize,
}

impl DeepView for Target {
    type V = TargetView;

    open spec fn deep_view(&self) -> TargetView {
        TargetView { values: self.values.deep_view(), variation: self.variation.deep_view() }
    }
}

impl View for Target {
    type V = TargetView;

    open spec fn view(&self) -> TargetView {
        self.deep_view()
    }
}

impl FromJson for Target {
    open spec fn matches(json: JsonView, value: TargetView) -> bool {
        &&& json is Object
        &&& member_matches::<Vec<String>>(json, "values"@, value.values)
        &&& member_matches::<usize>(json, "variation"@, value.variation)
    }

    open spec fn fault(json: JsonView) -> Option<SchemaErrorView> {
        if !(json is Object) {
            Some(here(Problem::Mistyped))
        } else if member_fault::<Vec<String>>(json, "values"@) is Some {
            member_fault::<Vec<String>>(json, "values"@)
        } else if member_fault::<usize>(json, "variation"@) is Some {
            member_fault::<usize>(json, "variation"@)
        } else {
            None
        }
    }

    proof fn lemma_unique(json: JsonView, a: TargetView, b: TargetView) {
        lemma_member_unique::<Vec<String>>(json, "values"@, a.values, b.values);
        lemma_member_unique::<usize>(json, "variation"@, a.variation, b.variation);
    }

    fn from_json(json: &Json) -> (r: Result<Target, SchemaError>) {
        if !json.is_object() {
            return Err(SchemaError::here(Problem::Mistyped));
        }
        let values = required::<Vec<String>>(json, "values")?;
        let variation = required::<usize>(json, "variation")?;
        Ok(Target { values, variation })
    }
}

/// What is served to a user that no target and no rule selects.
#[derive(Debug)]
pub struct Fallthrough {
    pub variation: Option<usize>,
    pub rollout: Option<Rollout>,
}

/// The mathematical value of a [`Fallthrough`].
pub struct FallthroughView {
    pub variation: Option<usize>,
    pub rollout: Option<RolloutView>,
}

impl DeepView for Fallthrough {
    type V = FallthroughView;

    open spec fn deep_view(&self) -> FallthroughView {
        FallthroughView { variation: self.variation.deep_view(), rollout: self.rollout.deep_view() }
    }
}

impl View for Fallthrough {
    type V = FallthroughView;

    open spec fn view(&self) -> FallthroughView {
        self.deep_view()
    }
}

impl FromJson for Fallthrough {
    open spec fn matches(json: JsonView, value: FallthroughView) -> bool {
        &&& json is Object
        &&& optional_member_matches::<usize>(json, "variation"@, value.variation)
        &&& optional_member_matches::<Rollout>(json, "rollout"@, value.rollout)
    }

    open spec fn fault(json: JsonView) -> Option<SchemaErrorView> {
        if !(json is Object) {
            Some(here(Problem::Mistyped))
        } else if optional_member_fault::<usize>(json, "variation"@) is Some {
            optional_member_fault::<usize>(json, "variation"@)
        } else if optional_member_fault::<Rollout>(json, "rollout"@) is Some {
            optional_member_fault::<Rollout>(json, "rollout"@)
        } else {
            None
        }
    }

    proof fn lemma_unique(json: JsonView, a: FallthroughView, b: FallthroughView) {
        lemma_optional_member_unique::<usize>(json, "variation"@, a.variation, b.variation);
        lemma_optional_member_unique::<Rollout>(json, "rollout"@, a.rollout, b.rollout);
    }

    fn from_json(json: &Json) -> (r: Result<Fallthrough, SchemaError>) {
        if !json.is_object() {
            return Err(SchemaError::here(Problem::Mistyped));
        }
        let variation = optional::<usize>(json, "variation")?;
        let rollout = optional::<Rollout>(json, "rollout")?;
        Ok(Fallthrough { variation, rollout })
    }
}

/// The settings of a flag in one environment.
#[derive(Debug)]
pub struct FeatureFlagConfig {
    pub on: bool,
    pub archived: bool,
    pub salt: String,
    pub sel: String,
    pub last_modified: usize,
    pub version: usize,
    pub targets: Vec<Target>,
    pub rules: Vec<Rule>,
    pub fallthrough: Fallthrough,
}

/// The mathematical value of a [`FeatureFlagConfig`].
pub struct FeatureFlagConfigView {
    pub on: bool,
    pub archived: bool,
    pub salt: Seq<char>,
    pub sel: Seq<char>,
    pub last_modified: usize,
    pub version: usize,
    pub targets: Seq<TargetView>,
    pub rules: Seq<RuleView>,
    pub fallthrough: FallthroughView,
}

impl DeepView for FeatureFlagConfig {
    type V = FeatureFlagConfigView;

    open spec fn deep_view(&self) -> FeatureFlagConfigView {
        FeatureFlagConfigView {
            on: self.on.deep_view(),
            archived: self.archived.deep_view(),
            salt: self.salt.deep_view(),
            sel: self.sel.deep_view(),
            last_modified: self.last_modified.deep_view(),
            version: self.version.deep_view(),
            targets: self.targets.deep_view(),
            rules: self.rules.deep_view(),
            fallthrough: self.fallthrough.deep_view(),
        }
    }
}

impl View for FeatureFlagConfig {
    type V = FeatureFlagConfigView;

    open spec fn view(&self) -> FeatureFlagConfigView {
        self.deep_view()
    }
}

impl FromJson for FeatureFlagConfig {
    open spec fn matches(json: JsonView, value: FeatureFlagConfigView) -> bool {
        &&& json is Object
        &&& member_matches::<bool>(json, "on"@, value.on)
        &&& member_matches::<bool>(json, "archived"@, value.archived)
        &&& member_matches::<String>(json, "salt"@, value.salt)
        &&& member_matches::<String>(json, "sel"@, value.sel)
        &&& member_matches::<usize>(json, "lastModified"@, value.last_modified)
        &&& member_matches::<usize>(json, "version"@, value.version)
        &&& member_matches::<Vec<Target>>(json, "targets"@, value.targets)
        &&& member_matches::<Vec<Rule>>(json, "rules"@, value.rules)
        &&& member_matches::<Fallthrough>(json, "fallthrough"@, value.fallthrough)
    }

    open spec fn fault(json: JsonView) -> Option<SchemaErrorView> {
        if !(json is Object) {
            Some(here(Problem::Mistyped))
        } else if member_fault::<bool>(json, "on"@) is Some {
            member_fault::<bool>(json, "on"@)
        } else if member_fault::<bool>(json, "archived"@) is Some {
            member_fault::<bool>(json, "archived"@)
        } else if member_fault::<String>(json, "salt"@) is Some {
            member_fault::<String>(json, "salt"@)
        } else if member_fault::<String>(json, "sel"@) is Some {
            member_fault::<String>(json, "sel"@)
        } else if member_fault::<usize>(json, "lastModified"@) is Some {
            member_fault::<usize>(json, "lastModified"@)
        } else if member_fault::<usize>(json, "version"@) is Some {
            member_fault::<usize>(json, "version"@)
        } else if member_fault::<Vec<Target>>(json, "targets"@) is Some {
            member_fault::<Vec<Target>>(json, "targets"@)
        } else if member_fault::<Vec<Rule>>(json, "rules"@) is Some {
            member_fault::<Vec<Rule>>(json, "rules"@)
        } else if member_fault::<Fallthrough>(json, "fallthrough"@) is Some {
            member_fault::<Fallthrough>(json, "fallthrough"@)
        } else {
            None
        }
    }

    proof fn lemma_unique(json: JsonView, a: FeatureFlagConfigView, b: FeatureFlagConfigView) {
        lemma_member_unique::<bool>(json, "on"@, a.on, b.on);
        lemma_member_unique::<bool>(json, "archived"@, a.archived, b.archived);
        lemma_member_unique::<String>(json, "salt"@, a.salt, b.salt);
        lemma_member_unique::<String>(json, "sel"@, a.sel, b.sel);
        lemma_member_unique::<usize>(json, "lastModified"@, a.last_modified, b.last_modified);
        lemma_member_unique::<usize>(json, "version"@, a.version, b.version);
        lemma_member_unique::<Vec<Target>>(json, "targets"@, a.targets, b.targets);
        lemma_member_unique::<Vec<Rule>>(json, "rules"@, a.rules, b.rules);
        lemma_member_unique::<Fallthrough>(json, "fallthrough"@, a.fallthrough, b.fallthrough);
    }

    fn from_json(json: &Json) -> (r: Result<FeatureFlagConfig, SchemaError>) {
        if !json.is_object() {
            return Err(SchemaError::here(Problem::Mistyped));
        }
        let on = required::<bool>(json, "on")?;
        let archived = required::<bool>(json, "archived")?;
        let salt = required::<String>(json, "salt")?;
        let sel = required::<String>(json, "sel")?;
        let last_modified = required::<usize>(json, "lastModified")?;
        let version = required::<usize>(json, "version")?;
        let targets = required::<Vec<Target>>(json, "targets")?;
        let rules = required::<Vec<Rule>>(json, "rules")?;
        let fallthrough = required::<Fallthrough>(json, "fallthrough")?;
        Ok(FeatureFlagConfig {
            on,
            archived,
            salt,
            sel,
            last_modified,
            version,
            targets,
            rules,
            fallthrough,
        })
    }
}
} // verus!

//! Server-rendered prompt templates for Dynamics 365 workflows the model would
//! otherwise compose from scratch.

use vstd::prelude::*;
use crate::json::{Json, JsonV, owned, str_of};

verus! {

/// The text of the string argument `key`, or `default` when the arguments are
/// absent, not an object, lack the key, or hold something other than a string there.
pub open spec fn str_arg(args: Option<JsonV>, key: Seq<char>, default: Seq<char>) -> Seq<char> {
    match args {
        Some(a) => match a.get_spec(key) {
            Some(v) => match str_of(v) {
                Some(s) => s,
                None => default,
            },
            None => default,
        },
        None => default,
    }
}

pub open spec fn opt_view(args: Option<&Json>) -> Option<JsonV> {
    match args {
        Some(a) => Some(a@),
        None => None,
    }
}

fn arg_or(args: Option<&Json>, key: &str, default: &str) -> (r: String)
    ensures
        r@ == str_arg(opt_view(args), key@, default@),
{
    match args {
        Some(a) => match a.get(key) {
            Some(v) => match v.as_str() {
                Some(s) => s.clone(),
                None => owned(default),
            },
            None => owned(default),
        },
        None => owned(default),
    }
}

/// The cross-reference review prompt for an object of a kind.
pub open spec fn cross_reference_body(kind: Seq<char>, object: Seq<char>) -> Seq<char> {
    "Before changing or deploying "@ + kind + " "@ + object
        + ", run xpp.meta.cross_reference and reason carefully about the impact.\n\nSteps:\n1. Call xpp.meta.cross_reference with name="@
        + object + ", kind="@ + kind
        + " to enumerate every caller / implementer / reference site.\n2. For each hit, group by model using xpp.meta.get_model_contents on the parent.\n3. Identify which callers sit on a hot path (cross-reference business processes via flow.find_process).\n4. Produce a 3-section report: Direct callers, Indirect dependents, Recommended pre-deploy checks (regression tests, Solution Checker, packages to coordinate).\n\nCite every claim by its source URI (d365-service://, d365-entity://, or d365-learn://)."@
}

/// The cross-reference review prompt: the `object` argument (default `<OBJECT>`)
/// of the `kind` argument (default `class`).
pub fn review_cross_reference(args: Option<&Json>) -> (r: String)
    ensures
        r@ == cross_reference_body(
            str_arg(opt_view(args), "kind"@, "class"@),
            str_arg(opt_view(args), "object"@, "<OBJECT>"@),
        ),
{
    let object = arg_or(args, "object", "<OBJECT>");
    let kind = arg_or(args, "kind", "class");
    let mut r = owned("Before changing or deploying ");
    r.append(kind.as_str());
    r.append(" ");
    r.append(object.as_str());
    r.append(
        ", run xpp.meta.cross_reference and reason carefully about the impact.\n\nSteps:\n1. Call xpp.meta.cross_reference with name=",
    );
    r.append(object.as_str());
    r.append(", kind=");
    r.append(kind.as_str());
    r.append(
        " to enumerate every caller / implementer / reference site.\n2. For each hit, group by model using xpp.meta.get_model_contents on the parent.\n3. Identify which callers sit on a hot path (cross-reference business processes via flow.find_process).\n4. Produce a 3-section report: Direct callers, Indirect dependents, Recommended pre-deploy checks (regression tests, Solution Checker, packages to coordinate).\n\nCite every claim by its source URI (d365-service://, d365-entity://, or d365-learn://).",
    );
    r
}

/// The parameters a service-call review shows: the `parameters` argument, or an
/// empty object.
pub fn review_parameters(args: Option<&Json>) -> (r: Json)
    ensures
        r@ == match opt_view(args) {
            Some(a) => match a.get_spec("parameters"@) {
                Some(p) => p,
                None => JsonV::Object(seq![]),
            },
            None => JsonV::Object(seq![]),
        },
{
    match args {
        Some(a) => match a.get("parameters") {
            Some(p) => p.duplicate(),
            None => Json::Object(Vec::new()),
        },
        None => Json::Object(Vec::new()),
    }
}

/// The service-call review prompt, with the parameters in their printed form.
pub open spec fn service_call_body(operation: Seq<char>, parameters_text: Seq<char>) -> Seq<char> {
    "Review the following proposed Dynamics 365 OData operation before execution. Confirm it is the right operation for the user's intent, that every required parameter is present and well-typed, that the values are realistic for the target environment, and that the side-effects are acceptable. Cite the source for each claim.\n\nOperation: "@
        + operation + "\nParameters:\n"@ + parameters_text
        + "\n\nIf safe, summarise what the call will do, the affected entities, and the user-visible result. If unsafe, identify the specific risk and propose a safer alternative."@
}

/// The service-call review prompt for the `operation` argument (default
/// `<UNKNOWN>`), showing `parameters_text`, the printed form of the parameters.
pub fn review_service_call(args: Option<&Json>, parameters_text: &str) -> (r: String)
    ensures
        r@ == service_call_body(
            str_arg(opt_view(args), "operation"@, "<UNKNOWN>"@),
            parameters_text@,
        ),
{
    let operation = arg_or(args, "operation", "<UNKNOWN>");
    let mut r = owned(
        "Review the following proposed Dynamics 365 OData operation before execution. Confirm it is the right operation for the user's intent, that every required parameter is present and well-typed, that the values are realistic for the target environment, and that the side-effects are acceptable. Cite the source for each claim.\n\nOperation: ",
    );
    r.append(operation.as_str());
    r.append("\nParameters:\n");
    r.append(parameters_text);
    r.append(
        "\n\nIf safe, summarise what the call will do, the affected entities, and the user-visible result. If unsafe, identify the specific risk and propose a safer alternative.",
    );
    r
}

/// The deployment impact prompt for a package and a target environment.
pub open spec fn deploy_impact_body(package: Seq<char>, scope: Seq<char>) -> Seq<char> {
    "Analyse the impact of deploying package "@ + package + " to the "@ + scope
        + " environment.\n\nSteps:\n1. Use d365.docs.search to find related Microsoft Learn content for the objects in the package.\n2. Use xpp.meta.search to find the X++ objects the package modifies.\n3. Use xpp.meta.cross_reference on each modified object to enumerate downstream callers.\n4. Use app.search_solutions to enumerate dependent solutions/modules.\n5. Produce a 3-section report: Direct impact, Indirect impact, Recommended pre-deploy checks (Solution Checker, db sync, regression).\n\nCite every claim by its source URI."@
}

/// The deployment impact prompt for the `package` argument (default `<PACKAGE>`)
/// and the `scope` argument (default `PRODUCTION`).
pub fn deploy_impact_analysis(args: Option<&Json>) -> (r: String)
    ensures
        r@ == deploy_impact_body(
            str_arg(opt_view(args), "package"@, "<PACKAGE>"@),
            str_arg(opt_view(args), "scope"@, "PRODUCTION"@),
        ),
{
    let package = arg_or(args, "package", "<PACKAGE>");
    let scope = arg_or(args, "scope", "PRODUCTION");
    let mut r = owned("Analyse the impact of deploying package ");
    r.append(package.as_str());
    r.append(" to the ");
    r.append(scope.as_str());
    r.append(
        " environment.\n\nSteps:\n1. Use d365.docs.search to find related Microsoft Learn content for the objects in the package.\n2. Use xpp.meta.search to find the X++ objects the package modifies.\n3. Use xpp.meta.cross_reference on each modified object to enumerate downstream callers.\n4. Use app.search_solutions to enumerate dependent solutions/modules.\n5. Produce a 3-section report: Direct impact, Indirect impact, Recommended pre-deploy checks (Solution Checker, db sync, regression).\n\nCite every claim by its source URI.",
    );
    r
}

// ---------------------------------------------------------------------------
// Catalogue
// ---------------------------------------------------------------------------

/// An argument a prompt takes.
#[derive(Debug)]
pub struct PromptArgumentInfo {
    pub name: String,
    pub description: String,
    pub required: bool,
}

impl View for PromptArgumentInfo {
    type V = (Seq<char>, Seq<char>, bool);

    open spec fn view(&self) -> (Seq<char>, Seq<char>, bool) {
        (self.name@, self.description@, self.required)
    }
}

/// A published prompt: its name, description and arguments.
#[derive(Debug)]
pub struct PromptInfo {
    pub name: String,
    pub description: String,
    pub arguments: Vec<PromptArgumentInfo>,
}

pub open spec fn prompt_view(p: PromptInfo) -> (Seq<char>, Seq<char>, Seq<(Seq<char>, Seq<char>, bool)>) {
    (p.name@, p.description@, p.arguments@.map_values(|a: PromptArgumentInfo| a@))
}

/// The built-in prompts in the order they are published.
pub open spec fn builtin_prompts_spec() -> Seq<(Seq<char>, Seq<char>, Seq<(Seq<char>, Seq<char>, bool)>)> {
    seq![
        ("d365.review-service-call"@, "Pre-flight review of a proposed d365.service.call invocation."@, seq![
            ("operation"@, "OData operation name"@, true),
            ("parameters"@, "Parameters object"@, false),
        ]),
        ("d365.deploy-impact-analysis"@, "Multi-tool cross-domain impact analysis for a Dynamics 365 package deployment."@, seq![
            ("package"@, "Deployable package name"@, true),
            ("scope"@, "Target environment (PRODUCTION / UAT / DEV)"@, false),
        ]),
        ("xpp.review-cross-reference"@, "Walk the agent through a cross-reference analysis before changing an X++ object."@, seq![
            ("object"@, "Object name"@, true),
            ("kind"@, "Object kind (class | interface | table | ...)"@, false),
        ]),
    ]
}

fn prompt_info(
    name: &str,
    description: &str,
    a_name: &str,
    a_description: &str,
    b_name: &str,
    b_description: &str,
) -> (r: PromptInfo)
    ensures
        prompt_view(r) == (name@, description@, seq![(a_name@, a_description@, true), (b_name@, b_description@, false)]),
{
    let mut arguments: Vec<PromptArgumentInfo> = Vec::new();
    arguments.push(PromptArgumentInfo { name: owned(a_name), description: owned(a_description), required: true });
    arguments.push(PromptArgumentInfo { name: owned(b_name), description: owned(b_description), required: false });
    let r = PromptInfo { name: owned(name), description: owned(description), arguments };
    proof {
        assert(r.arguments@.map_values(|a: PromptArgumentInfo| a@) =~= seq![(a_name@, a_description@, true), (b_name@, b_description@, false)]);
    }
    r
}

/// The built-in prompts: service-call review, deployment impact analysis and
/// cross-reference review, each with one required and one optional argument.
pub fn builtin_prompts() -> (r: Vec<PromptInfo>)
    ensures
        r@.map_values(|p: PromptInfo| prompt_view(p)) == builtin_prompts_spec(),
{
    let mut out: Vec<PromptInfo> = Vec::new();
    out.push(prompt_info(
        "d365.review-service-call",
        "Pre-flight review of a proposed d365.service.call invocation.",
        "operation",
        "OData operation name",
        "parameters",
        "Parameters object",
    ));
    out.push(prompt_info(
        "d365.deploy-impact-analysis",
        "Multi-tool cross-domain impact analysis for a Dynamics 365 package deployment.",
        "package",
        "Deployable package name",
        "scope",
        "Target environment (PRODUCTION / UAT / DEV)",
    ));
    out.push(prompt_info(
        "xpp.review-cross-reference",
        "Walk the agent through a cross-reference analysis before changing an X++ object.",
        "object",
        "Object name",
        "kind",
        "Object kind (class | interface | table | ...)",
    ));
    proof {
        assert(out@.map_values(|p: PromptInfo| prompt_view(p)) =~= builtin_prompts_spec());
    }
    out
}

} // verus!

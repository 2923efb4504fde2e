//! Contract templates: reusable, parameterised contract definitions, the
//! checking of the parameters given to a template, and the contracts a
//! template yields.

use vstd::prelude::*;
use crate::json::{JsonValue, JsonView, fields_view};
use crate::symbols::{ContractSymbol, RuleSeverity, RuleType};
use crate::text::str_eq;

verus! {

/// Parameter types for contract templates.
#[derive(Debug, Clone, Copy, PartialEq, Eq, Structural)]
pub enum ParameterType {
    /// String parameter
    String,
    /// Boolean parameter
    Boolean,
    /// Number parameter
    Number,
    /// Array parameter
    Array,
    /// Object parameter
    Object,
    /// Concern symbol parameter
    ConcernSymbol,
    /// Rule severity parameter
    RuleSeverity,
}

impl ParameterType {
    /// The type's name, as text.
    pub open spec fn name_text(self) -> Seq<char> {
        match self {
            ParameterType::String => "String"@,
            ParameterType::Boolean => "Boolean"@,
            ParameterType::Number => "Number"@,
            ParameterType::Array => "Array"@,
            ParameterType::Object => "Object"@,
            ParameterType::ConcernSymbol => "ConcernSymbol"@,
            ParameterType::RuleSeverity => "RuleSeverity"@,
        }
    }

    /// The type's name.
    pub fn name(&self) -> (r: &'static str)
        ensures
            r@ == self.name_text(),
    {
        match self {
            ParameterType::String => "String",
            ParameterType::Boolean => "Boolean",
            ParameterType::Number => "Number",
            ParameterType::Array => "Array",
            ParameterType::Object => "Object",
            ParameterType::ConcernSymbol => "ConcernSymbol",
            ParameterType::RuleSeverity => "RuleSeverity",
        }
    }
}

/// A template parameter definition.
#[derive(Debug, Clone)]
pub struct TemplateParameter {
    /// Parameter name
    pub name: String,
    /// Parameter description
    pub description: String,
    /// Parameter type
    pub param_type: ParameterType,
    /// Whether parameter is required
    pub required: bool,
    /// Default value (if any)
    pub default: Option<JsonValue>,
}

/// A template rule definition.
#[derive(Debug, Clone)]
pub struct TemplateRule {
    /// Rule name
    pub name: String,
    /// Rule description
    pub description: String,
    /// Rule type
    pub rule_type: RuleType,
    /// Rule parameters, in key order
    pub parameters: Vec<(String, JsonValue)>,
    /// Rule severity
    pub severity: RuleSeverity,
    /// Whether rule is required
    pub required: bool,
}

/// A contract template.
#[derive(Debug, Clone)]
pub struct ContractTemplate {
    /// Template name/identifier
    pub name: String,
    /// Template description
    pub description: String,
    /// Template version
    pub version: String,
    /// Template parameters
    pub parameters: Vec<TemplateParameter>,
    /// Template rules
    pub rules: Vec<TemplateRule>,
    /// Template metadata, in key order
    pub metadata: Vec<(String, JsonValue)>,
}

/// Errors of template operations.
#[derive(Debug, Clone, PartialEq, Eq)]
pub enum TemplateError {
    /// Template not found
    TemplateNotFound(String),
    /// Missing required parameter
    MissingRequiredParameter(String),
    /// Invalid parameter type: the parameter's name and the expected type
    InvalidParameterType(String, String),
    /// Template instantiation failed
    InstantiationFailed(String),
}

/// A template error as plain values: its kind (from 0 for a missing
/// template) and texts.
pub open spec fn error_view(e: TemplateError) -> (nat, Seq<char>, Seq<char>) {
    match e {
        TemplateError::TemplateNotFound(s) => (0, s@, Seq::empty()),
        TemplateError::MissingRequiredParameter(s) => (1, s@, Seq::empty()),
        TemplateError::InvalidParameterType(n, t) => (2, n@, t@),
        TemplateError::InstantiationFailed(s) => (3, s@, Seq::empty()),
    }
}

impl TemplateError {
    /// The message of the error, as text.
    pub open spec fn message_text(self) -> Seq<char> {
        match self {
            TemplateError::TemplateNotFound(s) => "Template not found: "@ + s@,
            TemplateError::MissingRequiredParameter(s) => "Missing required parameter: "@ + s@,
            TemplateError::InvalidParameterType(n, t) => "Invalid parameter type: expected "@ + t@ + ", got "@ + n@,
            TemplateError::InstantiationFailed(s) => "Template instantiation failed: "@ + s@,
        }
    }

    /// The message of the error.
    pub fn message(&self) -> (r: String)
        ensures
            r@ == self.message_text(),
    {
        match self {
            TemplateError::TemplateNotFound(s) => {
                let mut m = "Template not found: ".to_owned();
                m.append(s.as_str());
                m
            },
            TemplateError::MissingRequiredParameter(s) => {
                let mut m = "Missing required parameter: ".to_owned();
                m.append(s.as_str());
                m
            },
            TemplateError::InvalidParameterType(n, t) => {
                let mut m = "Invalid parameter type: expected ".to_owned();
                m.append(t.as_str());
                m.append(", got ");
                m.append(n.as_str());
                m
            },
            TemplateError::InstantiationFailed(s) => {
                let mut m = "Template instantiation failed: ".to_owned();
                m.append(s.as_str());
                m
            },
        }
    }
}

/// Whether a value has a parameter type: the JSON kind, a non-empty string
/// for a concern, one of the four severity labels for a severity.
pub open spec fn type_accepts(t: ParameterType, v: JsonView) -> bool {
    match t {
        ParameterType::String => v is Str,
        ParameterType::Boolean => v is Bool,
        ParameterType::Number => v is Number,
        ParameterType::Array => v is Array,
        ParameterType::Object => v is Object,
        ParameterType::ConcernSymbol => v matches JsonView::Str(s) && s.len() > 0,
        ParameterType::RuleSeverity => v matches JsonView::Str(s) && (s == "info"@ || s == "warning"@ || s == "error"@
            || s == "critical"@),
    }
}

/// The first required parameter that `given` does not name, if any.
pub open spec fn first_missing(params: Seq<TemplateParameter>, given: Seq<(Seq<char>, JsonView)>) -> Option<Seq<char>>
    decreases params.len(),
{
    if params.len() == 0 {
        None
    } else if params[0].required && !given.map_values(|g: (Seq<char>, JsonView)| g.0).contains(params[0].name@) {
        Some(params[0].name@)
    } else {
        first_missing(params.drop_first(), given)
    }
}

/// The first template parameter named `name`, if any.
pub open spec fn param_named(params: Seq<TemplateParameter>, name: Seq<char>) -> Option<TemplateParameter>
    decreases params.len(),
{
    if params.len() == 0 {
        None
    } else if params[0].name@ == name {
        Some(params[0])
    } else {
        param_named(params.drop_first(), name)
    }
}

/// The first given value, in order, that the template parameter of its
/// name does not accept: its name and the expected type's name.
pub open spec fn first_mistyped(params: Seq<TemplateParameter>, given: Seq<(Seq<char>, JsonView)>) -> Option<(Seq<char>, Seq<char>)>
    decreases given.len(),
{
    if given.len() == 0 {
        None
    } else {
        match param_named(params, given[0].0) {
            Some(p) => if !type_accepts(p.param_type, given[0].1) {
                Some((given[0].0, p.param_type.name_text()))
            } else {
                first_mistyped(params, given.drop_first())
            },
            None => first_mistyped(params, given.drop_first()),
        }
    }
}

/// The outcome of checking the values `given` for a template's parameters:
/// a missing required parameter first, then a value of the wrong type.
pub open spec fn check_outcome(params: Seq<TemplateParameter>, given: Seq<(Seq<char>, JsonView)>) -> Option<(nat, Seq<char>, Seq<char>)> {
    match first_missing(params, given) {
        Some(n) => Some((1, n, Seq::empty())),
        None => match first_mistyped(params, given) {
            Some((n, t)) => Some((2, n, t)),
            None => None,
        },
    }
}

/// The suffix that the string values among `given` add to a contract
/// name: `-name=value` for each, in order.
pub open spec fn name_suffix(given: Seq<(Seq<char>, JsonView)>) -> Seq<char>
    decreases given.len(),
{
    if given.len() == 0 {
        Seq::empty()
    } else {
        name_suffix(given.drop_last()) + match given.last().1 {
            JsonView::Str(s) => "-"@ + given.last().0 + "="@ + s,
            _ => Seq::empty(),
        }
    }
}

/// The name of the contract a template's rule yields for the values
/// `given`.
pub open spec fn contract_name(template: Seq<char>, rule: Seq<char>, given: Seq<(Seq<char>, JsonView)>) -> Seq<char> {
    template + "-"@ + rule + name_suffix(given)
}

/// The templates by name, in the order first registered.
pub open spec fn template_entries(v: Seq<(String, ContractTemplate)>) -> Seq<(Seq<char>, ContractTemplate)> {
    v.map_values(|e: (String, ContractTemplate)| (e.0@, e.1))
}

/// Whether a value has a parameter type.
fn accepts(t: ParameterType, v: &JsonValue) -> (r: bool)
    ensures
        r == type_accepts(t, v@),
{
    match t {
        ParameterType::String => match v {
            JsonValue::Str(_) => true,
            _ => false,
        },
        ParameterType::Boolean => match v {
            JsonValue::Bool(_) => true,
            _ => false,
        },
        ParameterType::Number => match v {
            JsonValue::Number(_) => true,
            _ => false,
        },
        ParameterType::Array => match v {
            JsonValue::Array(_) => true,
            _ => false,
        },
        ParameterType::Object => match v {
            JsonValue::Object(_) => true,
            _ => false,
        },
        ParameterType::ConcernSymbol => match v {
            JsonValue::Str(s) => s.unicode_len() > 0,
            _ => false,
        },
        ParameterType::RuleSeverity => match v {
            JsonValue::Str(s) => str_eq(s.as_str(), "info") || str_eq(s.as_str(), "warning") || str_eq(s.as_str(), "error")
                || str_eq(s.as_str(), "critical"),
            _ => false,
        },
    }
}

/// Whether `given` names `name`.
fn names(given: &Vec<(String, JsonValue)>, name: &String) -> (r: bool)
    ensures
        r == fields_view(given@).map_values(|g: (Seq<char>, JsonView)| g.0).contains(name@),
{
    proof {
        crate::json::lemma_fields_view(given@);
    }
    let ghost keys = fields_view(given@).map_values(|g: (Seq<char>, JsonView)| g.0);
    let mut i: usize = 0;
    while i < given.len()
        invariant
            i <= given@.len(),
            keys == fields_view(given@).map_values(|g: (Seq<char>, JsonView)| g.0),
            keys.len() == given@.len(),
            forall|j: int| 0 <= j < given@.len() ==> #[trigger] keys[j] == given@[j].0@,
            forall|j: int| 0 <= j < i ==> keys[j] != name@,
        decreases given@.len() - i,
    {
        if str_eq(given[i].0.as_str(), name.as_str()) {
            assert(keys[i as int] == name@);
            return true;
        }
        i = i + 1;
    }
    false
}

/// The first template parameter named `name`, if any.
fn find_param<'a>(params: &'a Vec<TemplateParameter>, name: &String) -> (r: Option<&'a TemplateParameter>)
    ensures
        match r {
            Some(p) => param_named(params@, name@) == Some(*p),
            None => param_named(params@, name@) is None,
        },
{
    let mut i: usize = 0;
    assert(params@.subrange(0, params@.len() as int) =~= params@);
    while i < params.len()
        invariant
            i <= params@.len(),
            param_named(params@, name@) == param_named(params@.subrange(i as int, params@.len() as int), name@),
        decreases params@.len() - i,
    {
        let ghost rest = params@.subrange(i as int, params@.len() as int);
        assert(rest[0] == params@[i as int]);
        assert(rest.drop_first() =~= params@.subrange(i + 1, params@.len() as int));
        if str_eq(params[i].name.as_str(), name.as_str()) {
            return Some(&params[i]);
        }
        i = i + 1;
    }
    None
}

/// Contract template registry.
pub struct ContractTemplateRegistry {
    templates: Vec<(String, ContractTemplate)>,
}

impl ContractTemplateRegistry {
    /// The registered templates, by name.
    pub closed spec fn templates(&self) -> Seq<(Seq<char>, ContractTemplate)> {
        template_entries(self.templates@)
    }

    /// A registry with no templates.
    pub fn new() -> (r: Self)
        ensures
            r.templates().len() == 0,
    {
        let r = ContractTemplateRegistry { templates: Vec::new() };
        assert(template_entries(r.templates@) =~= Seq::<(Seq<char>, ContractTemplate)>::empty());
        r
    }

    /// Register a template under its name, replacing one of the same name.
    pub fn register_template(&mut self, template: ContractTemplate)
        ensures
            final(self).templates() == crate::sarif_roles::upsert(old(self).templates(), template.name@, template),
    {
        let ghost before = template_entries(self.templates@);
        let ghost t = template;
        let mut i: usize = 0;
        while i < self.templates.len()
            invariant
                i <= self.templates@.len(),
                template_entries(self.templates@) == before,
                before == old(self).templates(),
                crate::sarif_roles::first_key_index(before.subrange(0, i as int), template.name@) is None,
                t == template,
            decreases self.templates@.len() - i,
        {
            assert(before.subrange(0, i + 1).drop_last() =~= before.subrange(0, i as int));
            if str_eq(self.templates[i].0.as_str(), template.name.as_str()) {
                proof {
                    assert(before[i as int].0 == template.name@);
                    assert(crate::sarif_roles::first_key_index(before.subrange(0, i + 1), template.name@) == Some(i as int));
                    crate::sarif_roles::lemma_first_key_prefix(before, template.name@, i + 1);
                }
                let name = crate::sarif::copy_string(&template.name);
                let mut templates = Vec::new();
                std::mem::swap(&mut templates, &mut self.templates);
                templates.set(i, (name, template));
                self.templates = templates;
                assert(template_entries(self.templates@) =~= before.update(i as int, (t.name@, t)));
                return;
            }
            i = i + 1;
        }
        assert(before.subrange(0, before.len() as int) =~= before);
        let name = crate::sarif::copy_string(&template.name);
        self.templates.push((name, template));
        assert(template_entries(self.templates@) =~= before.push((t.name@, t)));
    }

    /// The template registered under `name`, if any.
    pub fn get_template(&self, name: &str) -> (r: Option<&ContractTemplate>)
        ensures
            match crate::sarif_roles::first_key_index(self.templates(), name@) {
                Some(i) => r == Some(&self.templates()[i].1),
                None => r is None,
            },
    {
        let ghost tv = self.templates();
        let mut i: usize = 0;
        while i < self.templates.len()
            invariant
                i <= self.templates@.len(),
                tv == self.templates(),
                crate::sarif_roles::first_key_index(tv.subrange(0, i as int), name@) is None,
            decreases self.templates@.len() - i,
        {
            assert(tv.subrange(0, i + 1).drop_last() =~= tv.subrange(0, i as int));
            if str_eq(self.templates[i].0.as_str(), name) {
                proof {
                    assert(tv[i as int].0 == name@);
                    assert(crate::sarif_roles::first_key_index(tv.subrange(0, i + 1), name@) == Some(i as int));
                    crate::sarif_roles::lemma_first_key_prefix(tv, name@, i + 1);
                }
                return Some(&self.templates[i].1);
            }
            i = i + 1;
        }
        assert(tv.subrange(0, tv.len() as int) =~= tv);
        None
    }

    /// The names of the registered templates, in the order first registered.
    pub fn list_templates(&self) -> (r: Vec<&String>)
        ensures
            r@.len() == self.templates().len(),
            forall|i: int| 0 <= i < r@.len() ==> (#[trigger] r@[i])@ == self.templates()[i].0,
    {
        let mut r: Vec<&String> = Vec::new();
        let mut i: usize = 0;
        while i < self.templates.len()
            invariant
                i <= self.templates@.len(),
                r@.len() == i,
                forall|j: int| 0 <= j < i ==> (#[trigger] r@[j])@ == self.templates()[j].0,
            decreases self.templates@.len() - i,
        {
            r.push(&self.templates[i].0);
            i = i + 1;
        }
        r
    }

    /// Check the values given for a template's parameters: each required
    /// parameter is given, and each given value has its parameter's type.
    fn validate_parameters(&self, template: &ContractTemplate, parameters: &Vec<(String, JsonValue)>) -> (r: Result<
        (),
        TemplateError,
    >)
        ensures
            match check_outcome(template.parameters@, fields_view(parameters@)) {
                Some(e) => r matches Err(x) && error_view(x) == e,
                None => r is Ok,
            },
    {
        let params = &template.parameters;
        let ghost given = fields_view(parameters@);
        let mut i: usize = 0;
        assert(params@.subrange(0, params@.len() as int) =~= params@);
        while i < params.len()
            invariant
                i <= params@.len(),
                given == fields_view(parameters@),
                params@ == template.parameters@,
                first_missing(params@, given) == first_missing(params@.subrange(i as int, params@.len() as int), given),
            decreases params@.len() - i,
        {
            let ghost rest = params@.subrange(i as int, params@.len() as int);
            assert(rest[0] == params@[i as int]);
            assert(rest.drop_first() =~= params@.subrange(i + 1, params@.len() as int));
            if params[i].required && !names(parameters, &params[i].name) {
                return Err(TemplateError::MissingRequiredParameter(crate::sarif::copy_string(&params[i].name)));
            }
            i = i + 1;
        }
        assert(params@.subrange(params@.len() as int, params@.len() as int) =~= Seq::<TemplateParameter>::empty());
        proof {
            crate::json::lemma_fields_view(parameters@);
        }
        let mut k: usize = 0;
        assert(given.subrange(0, given.len() as int) =~= given);
        while k < parameters.len()
            invariant
                k <= parameters@.len(),
                given == fields_view(parameters@),
                params@ == template.parameters@,
                given.len() == parameters@.len(),
                forall|j: int| 0 <= j < parameters@.len() ==> #[trigger] given[j] == (parameters@[j].0@, parameters@[j].1@),
                first_missing(params@, given) is None,
                first_mistyped(params@, given) == first_mistyped(params@, given.subrange(k as int, given.len() as int)),
            decreases parameters@.len() - k,
        {
            let ghost rest = given.subrange(k as int, given.len() as int);
            assert(rest[0] == given[k as int]);
            assert(rest.drop_first() =~= given.subrange(k + 1, given.len() as int));
            match find_param(params, &parameters[k].0) {
                Some(p) => {
                    if !accepts(p.param_type, &parameters[k].1) {
                        return Err(
                            TemplateError::InvalidParameterType(
                                crate::sarif::copy_string(&parameters[k].0),
                                p.param_type.name().to_owned(),
                            ),
                        );
                    }
                },
                None => {},
            }
            k = k + 1;
        }
        Ok(())
    }

    /// The name of the contract a template's rule yields for the values
    /// given.
    fn generate_contract_name(&self, template: &ContractTemplate, rule: &TemplateRule, parameters: &Vec<(String, JsonValue)>) -> (r:
        String)
        ensures
            r@ == contract_name(template.name@, rule.name@, fields_view(parameters@)),
    {
        let mut name = crate::sarif::copy_string(&template.name);
        name.append("-");
        name.append(rule.name.as_str());
        let ghost base = name@;
        proof {
            crate::json::lemma_fields_view(parameters@);
        }
        let ghost given = fields_view(parameters@);
        let mut i: usize = 0;
        while i < parameters.len()
            invariant
                i <= parameters@.len(),
                given == fields_view(parameters@),
                given.len() == parameters@.len(),
                forall|j: int| 0 <= j < parameters@.len() ==> #[trigger] given[j] == (parameters@[j].0@, parameters@[j].1@),
                name@ == base + name_suffix(given.take(i as int)),
            decreases parameters@.len() - i,
        {
            assert(given.take(i + 1).drop_last() =~= given.take(i as int));
            assert(given.take(i + 1).last() == given[i as int]);
            match &parameters[i].1 {
                JsonValue::Str(s) => {
                    name.append("-");
                    name.append(parameters[i].0.as_str());
                    name.append("=");
                    name.append(s.as_str());
                },
                _ => {},
            }
            assert(name@ =~= base + name_suffix(given.take(i + 1)));
            i = i + 1;
        }
        assert(given.take(given.len() as int) =~= given);
        name
    }

    /// Instantiate a template with parameter values: the contract each of
    /// its rules yields, in order. An error where no template has the name,
    /// where a required parameter is not given, or where a given value has
    /// the wrong type.
    pub fn instantiate_template(&self, template_name: &str, parameters: Vec<(String, JsonValue)>) -> (r: Result<
        Vec<ContractSymbol>,
        TemplateError,
    >)
        ensures
            match crate::sarif_roles::first_key_index(self.templates(), template_name@) {
                None => r matches Err(e) && error_view(e) == (0nat, template_name@, Seq::<char>::empty()),
                Some(i) => {
                    let t = self.templates()[i].1;
                    match check_outcome(t.parameters@, fields_view(parameters@)) {
                        Some(e) => r matches Err(x) && error_view(x) == e,
                        None => r matches Ok(cs) && cs@.len() == t.rules@.len() && forall|k: int|
                            0 <= k < cs@.len() ==> (#[trigger] cs@[k]).0@ == contract_name(
                                t.name@,
                                t.rules@[k].name@,
                                fields_view(parameters@),
                            ),
                    }
                },
            },
    {
        let template = match self.get_template(template_name) {
            Some(t) => t,
            None => {
                return Err(TemplateError::TemplateNotFound(template_name.to_owned()));
            },
        };
        match self.validate_parameters(template, &parameters) {
            Ok(()) => {},
            Err(e) => {
                return Err(e);
            },
        }
        let mut contracts: Vec<ContractSymbol> = Vec::new();
        let mut k: usize = 0;
        while k < template.rules.len()
            invariant
                k <= template.rules@.len(),
                contracts@.len() == k,
                forall|j: int|
                    0 <= j < k ==> (#[trigger] contracts@[j]).0@ == contract_name(
                        template.name@,
                        template.rules@[j].name@,
                        fields_view(parameters@),
                    ),
            decreases template.rules@.len() - k,
        {
            let name = self.generate_contract_name(template, &template.rules[k], &parameters);
            contracts.push(ContractSymbol::new(name.as_str()));
            k = k + 1;
        }
        Ok(contracts)
    }
}


/// `p` is the parameter `name` of type `t`.
pub open spec fn param_is(
    p: TemplateParameter,
    name: Seq<char>,
    description: Seq<char>,
    t: ParameterType,
    required: bool,
    default: Option<JsonView>,
) -> bool {
    &&& p.name@ == name
    &&& p.description@ == description
    &&& p.param_type == t
    &&& p.required == required
    &&& match p.default {
        Some(v) => default == Some(v@),
        None => default is None,
    }
}

/// `r` is the rule `name` of type `t`, with no parameters.
pub open spec fn rule_is(
    r: TemplateRule,
    name: Seq<char>,
    description: Seq<char>,
    t: RuleType,
    severity: RuleSeverity,
    required: bool,
) -> bool {
    &&& r.name@ == name
    &&& r.description@ == description
    &&& r.rule_type == t
    &&& r.parameters@.len() == 0
    &&& r.severity == severity
    &&& r.required == required
}

/// A template parameter.
fn param(name: &str, description: &str, t: ParameterType, required: bool, default: Option<&str>) -> (r: TemplateParameter)
    ensures
        param_is(
            r,
            name@,
            description@,
            t,
            required,
            match default {
                Some(d) => Some(JsonView::Str(d@)),
                None => None,
            },
        ),
{
    TemplateParameter {
        name: name.to_owned(),
        description: description.to_owned(),
        param_type: t,
        required,
        default: match default {
            Some(d) => Some(JsonValue::Str(d.to_owned())),
            None => None,
        },
    }
}

/// A template rule with no parameters.
fn rule(name: &str, description: &str, t: RuleType, severity: RuleSeverity) -> (r: TemplateRule)
    ensures
        rule_is(r, name@, description@, t, severity, true),
{
    TemplateRule {
        name: name.to_owned(),
        description: description.to_owned(),
        rule_type: t,
        parameters: Vec::new(),
        severity,
        required: true,
    }
}

/// The template for file mode validation.
pub fn file_mode_template() -> (r: ContractTemplate)
    ensures
        r.name@ == "file-mode"@,
        r.description@ == "Validate file modes for specific patterns"@,
        r.version@ == "1.0.0"@,
        r.parameters@.len() == 3,
        param_is(r.parameters@[0], "pattern"@, "File pattern to match"@, ParameterType::String, true, None),
        param_is(r.parameters@[1], "executable"@, "Whether files should be executable"@, ParameterType::Boolean, true, None),
        param_is(
            r.parameters@[2],
            "severity"@,
            "Rule severity"@,
            ParameterType::RuleSeverity,
            false,
            Some(JsonView::Str("error"@)),
        ),
        r.rules@.len() == 1,
        rule_is(
            r.rules@[0],
            "mode-validation"@,
            "Validate file mode matches expected value"@,
            RuleType::Custom,
            RuleSeverity::Error,
            true,
        ),
        r.metadata@.len() == 0,
{
    ContractTemplate {
        name: "file-mode".to_owned(),
        description: "Validate file modes for specific patterns".to_owned(),
        version: "1.0.0".to_owned(),
        parameters: vec![
            param("pattern", "File pattern to match", ParameterType::String, true, None),
            param("executable", "Whether files should be executable", ParameterType::Boolean, true, None),
            param("severity", "Rule severity", ParameterType::RuleSeverity, false, Some("error")),
        ],
        rules: vec![
            rule("mode-validation", "Validate file mode matches expected value", RuleType::Custom, RuleSeverity::Error),
        ],
        metadata: Vec::new(),
    }
}

/// The template for line ending validation.
pub fn line_ending_template() -> (r: ContractTemplate)
    ensures
        r.name@ == "line-ending"@,
        r.description@ == "Validate line ending normalization"@,
        r.version@ == "1.0.0"@,
        r.parameters@.len() == 2,
        param_is(r.parameters@[0], "pattern"@, "File pattern to match"@, ParameterType::String, true, None),
        param_is(
            r.parameters@[1],
            "normalization"@,
            "Expected line ending normalization"@,
            ParameterType::String,
            true,
            None,
        ),
        r.rules@.len() == 1,
        rule_is(
            r.rules@[0],
            "line-ending-validation"@,
            "Validate line ending normalization"@,
            RuleType::Custom,
            RuleSeverity::Warning,
            true,
        ),
        r.metadata@.len() == 0,
{
    ContractTemplate {
        name: "line-ending".to_owned(),
        description: "Validate line ending normalization".to_owned(),
        version: "1.0.0".to_owned(),
        parameters: vec![
            param("pattern", "File pattern to match", ParameterType::String, true, None),
            param("normalization", "Expected line ending normalization", ParameterType::String, true, None),
        ],
        rules: vec![
            rule("line-ending-validation", "Validate line ending normalization", RuleType::Custom, RuleSeverity::Warning),
        ],
        metadata: Vec::new(),
    }
}

/// The template for file size validation.
pub fn file_size_template() -> (r: ContractTemplate)
    ensures
        r.name@ == "file-size"@,
        r.description@ == "Validate file size limits"@,
        r.version@ == "1.0.0"@,
        r.parameters@.len() == 2,
        param_is(r.parameters@[0], "pattern"@, "File pattern to match"@, ParameterType::String, true, None),
        param_is(r.parameters@[1], "max_size"@, "Maximum file size in bytes"@, ParameterType::Number, true, None),
        r.rules@.len() == 1,
        rule_is(
            r.rules@[0],
            "size-validation"@,
            "Validate file size is within limits"@,
            RuleType::FileSize,
            RuleSeverity::Error,
            true,
        ),
        r.metadata@.len() == 0,
{
    ContractTemplate {
        name: "file-size".to_owned(),
        description: "Validate file size limits".to_owned(),
        version: "1.0.0".to_owned(),
        parameters: vec![
            param("pattern", "File pattern to match", ParameterType::String, true, None),
            param("max_size", "Maximum file size in bytes", ParameterType::Number, true, None),
        ],
        rules: vec![rule("size-validation", "Validate file size is within limits", RuleType::FileSize, RuleSeverity::Error)],
        metadata: Vec::new(),
    }
}

/// The template for file extension validation.
pub fn file_extension_template() -> (r: ContractTemplate)
    ensures
        r.name@ == "file-extension"@,
        r.description@ == "Validate file extensions"@,
        r.version@ == "1.0.0"@,
        r.parameters@.len() == 2,
        param_is(
            r.parameters@[0],
            "allowed_extensions"@,
            "List of allowed file extensions"@,
            ParameterType::Array,
            true,
            None,
        ),
        param_is(
            r.parameters@[1],
            "severity"@,
            "Rule severity"@,
            ParameterType::RuleSeverity,
            false,
            Some(JsonView::Str("warning"@)),
        ),
        r.rules@.len() == 1,
        rule_is(
            r.rules@[0],
            "extension-validation"@,
            "Validate file has allowed extension"@,
            RuleType::FileExtension,
            RuleSeverity::Warning,
            true,
        ),
        r.metadata@.len() == 0,
{
    ContractTemplate {
        name: "file-extension".to_owned(),
        description: "Validate file extensions".to_owned(),
        version: "1.0.0".to_owned(),
        parameters: vec![
            param("allowed_extensions", "List of allowed file extensions", ParameterType::Array, true, None),
            param("severity", "Rule severity", ParameterType::RuleSeverity, false, Some("warning")),
        ],
        rules: vec![
            rule(
                "extension-validation",
                "Validate file has allowed extension",
                RuleType::FileExtension,
                RuleSeverity::Warning,
            ),
        ],
        metadata: Vec::new(),
    }
}

} // verus!

use super::args::{ArgsView, ErrorSite, ErrorView, MacroArgs, MacroError};
use crate::task::priority::TaskPriority;
use crate::task::qos::Qos;
use crate::text::text_eq;
use vstd::prelude::*;

verus! {

/// One setting the generated code makes on the task attributes, in order.
pub enum AttrStep {
    Qos(Qos),
    Priority(TaskPriority),
    Name(String),
    Delay(u64),
    StackSize(u64),
}

/// A setting by plain values.
pub enum AttrStepView {
    Qos(Qos),
    Priority(TaskPriority),
    Name(Seq<char>),
    Delay(u64),
    StackSize(u64),
}

impl View for AttrStep {
    type V = AttrStepView;

    open spec fn view(&self) -> AttrStepView {
        match self {
            AttrStep::Qos(q) => AttrStepView::Qos(*q),
            AttrStep::Priority(p) => AttrStepView::Priority(*p),
            AttrStep::Name(n) => AttrStepView::Name(n@),
            AttrStep::Delay(d) => AttrStepView::Delay(*d),
            AttrStep::StackSize(s) => AttrStepView::StackSize(*s),
        }
    }
}

/// The level whose variant name is exactly this text.
pub open spec fn qos_named(v: Seq<char>) -> Option<Qos> {
    if v == "Inherit"@ {
        Some(Qos::Inherit)
    } else if v == "Background"@ {
        Some(Qos::Background)
    } else if v == "Utility"@ {
        Some(Qos::Utility)
    } else if v == "Default"@ {
        Some(Qos::Default)
    } else if v == "UserInitiated"@ {
        Some(Qos::UserInitiated)
    } else {
        None
    }
}

/// The priority whose variant name is exactly this text.
pub open spec fn priority_named(v: Seq<char>) -> Option<TaskPriority> {
    if v == "Immediate"@ {
        Some(TaskPriority::Immediate)
    } else if v == "High"@ {
        Some(TaskPriority::High)
    } else if v == "Low"@ {
        Some(TaskPriority::Low)
    } else if v == "Idle"@ {
        Some(TaskPriority::Idle)
    } else {
        None
    }
}

/// The settings for the given arguments, in the order QoS, priority, name,
/// delay, stack size; a QoS or priority that is not exactly a variant name is an error.
pub open spec fn attr_setup_spec(a: ArgsView) -> Result<Seq<AttrStepView>, ErrorView> {
    let qos_bad = a.qos matches Some(q) && qos_named(q) is None;
    let priority_bad = a.priority matches Some(p) && priority_named(p) is None;
    if qos_bad {
        Err(
            ErrorView {
                site: ErrorSite::CallSite,
                message: "Invalid QoS value: "@ + a.qos->0
                    + ". Valid values are: Inherit, Background, Utility, Default, UserInitiated"@,
            },
        )
    } else if priority_bad {
        Err(
            ErrorView {
                site: ErrorSite::CallSite,
                message: "Invalid priority value: "@ + a.priority->0
                    + ". Valid values are: Immediate, High, Low, Idle"@,
            },
        )
    } else {
        Ok(
            (match a.qos {
                Some(q) => seq![AttrStepView::Qos(qos_named(q)->0)],
                None => Seq::empty(),
            }) + (match a.priority {
                Some(p) => seq![AttrStepView::Priority(priority_named(p)->0)],
                None => Seq::empty(),
            }) + (match a.name {
                Some(n) => seq![AttrStepView::Name(n)],
                None => Seq::empty(),
            }) + (match a.delay {
                Some(d) => seq![AttrStepView::Delay(d)],
                None => Seq::empty(),
            }) + (match a.stack_size {
                Some(s) => seq![AttrStepView::StackSize(s)],
                None => Seq::empty(),
            }),
        )
    }
}

/// The view of each setting.
pub open spec fn steps_view(steps: Seq<AttrStep>) -> Seq<AttrStepView> {
    steps.map_values(|s: AttrStep| s@)
}

fn qos_from_name(v: &str) -> (r: Option<Qos>)
    ensures
        r == qos_named(v@),
{
    if text_eq(v, "Inherit") {
        Some(Qos::Inherit)
    } else if text_eq(v, "Background") {
        Some(Qos::Background)
    } else if text_eq(v, "Utility") {
        Some(Qos::Utility)
    } else if text_eq(v, "Default") {
        Some(Qos::Default)
    } else if text_eq(v, "UserInitiated") {
        Some(Qos::UserInitiated)
    } else {
        None
    }
}

fn priority_from_name(v: &str) -> (r: Option<TaskPriority>)
    ensures
        r == priority_named(v@),
{
    if text_eq(v, "Immediate") {
        Some(TaskPriority::Immediate)
    } else if text_eq(v, "High") {
        Some(TaskPriority::High)
    } else if text_eq(v, "Low") {
        Some(TaskPriority::Low)
    } else if text_eq(v, "Idle") {
        Some(TaskPriority::Idle)
    } else {
        None
    }
}

/// The settings the generated code makes on the task attributes.
pub fn build_attr_setup(args: &MacroArgs) -> (r: Result<Vec<AttrStep>, MacroError>)
    ensures
        match (r, attr_setup_spec(args@)) {
            (Ok(steps), Ok(s)) => steps_view(steps@) == s,
            (Err(e), Err(se)) => e@ == se,
            _ => false,
        },
{
    let mut steps: Vec<AttrStep> = Vec::new();
    let ghost a = args@;
    match args.qos() {
        Some(q) => match qos_from_name(q.as_str()) {
            Some(level) => {
                steps.push(AttrStep::Qos(level));
            },
            None => {
                let mut m = String::from_str("Invalid QoS value: ");
                m.append(q.as_str());
                m.append(". Valid values are: Inherit, Background, Utility, Default, UserInitiated");
                return Err(MacroError { site: ErrorSite::CallSite, message: m });
            },
        },
        None => {},
    }
    let ghost s1 = steps_view(steps@);
    match args.priority() {
        Some(p) => match priority_from_name(p.as_str()) {
            Some(level) => {
                steps.push(AttrStep::Priority(level));
            },
            None => {
                let mut m = String::from_str("Invalid priority value: ");
                m.append(p.as_str());
                m.append(". Valid values are: Immediate, High, Low, Idle");
                return Err(MacroError { site: ErrorSite::CallSite, message: m });
            },
        },
        None => {},
    }
    let ghost s2 = steps_view(steps@);
    match args.name() {
        Some(n) => {
            steps.push(AttrStep::Name(n.clone()));
        },
        None => {},
    }
    let ghost s3 = steps_view(steps@);
    match args.delay() {
        Some(d) => {
            steps.push(AttrStep::Delay(d));
        },
        None => {},
    }
    let ghost s4 = steps_view(steps@);
    match args.stack_size() {
        Some(s) => {
            steps.push(AttrStep::StackSize(s));
        },
        None => {},
    }
    proof {
        let spec_steps = attr_setup_spec(a)->Ok_0;
        assert(steps_view(steps@) =~= spec_steps);
    }
    Ok(steps)
}

/// A path type as the macro sees it: the names of its segments and whether
/// the last segment's first angle-bracketed argument is a type.
pub struct TypePath {
    pub segments: Vec<String>,
    pub first_arg_is_type: bool,
}

/// The shape of a type: a path, or anything else.
pub enum TypeShape {
    Path(TypePath),
    Other,
}

/// The declared return of a function: none, or a type.
pub enum ReturnShape {
    Default,
    Type(TypeShape),
}

/// What the macro reads of the function it is attached to.
pub struct FunctionShape {
    pub is_async: bool,
    pub output: ReturnShape,
}

/// Which type the promise of the generated function resolves to.
#[derive(Debug, Clone, Copy, PartialEq, Eq, Structural)]
pub enum InnerReturn {
    /// The unit type.
    Unit,
    /// The declared return type itself.
    AsDeclared,
    /// The first type argument of the declared `Result`.
    FirstTypeArgument,
}

/// What the generated function does.
pub struct ExpansionPlan {
    /// Whether the body already yields a `Result`, so that it is not wrapped in `Ok`.
    pub returns_result: bool,
    /// The type the promise resolves to.
    pub inner_return: InnerReturn,
    /// The settings made on the task attributes.
    pub attr_steps: Vec<AttrStep>,
    /// Whether the task is spawned with those attributes rather than the defaults.
    pub spawn_with_attr: bool,
}

/// A plan by plain values.
pub struct PlanView {
    pub returns_result: bool,
    pub inner_return: InnerReturn,
    pub attr_steps: Seq<AttrStepView>,
    pub spawn_with_attr: bool,
}

impl View for ExpansionPlan {
    type V = PlanView;

    open spec fn view(&self) -> PlanView {
        PlanView {
            returns_result: self.returns_result,
            inner_return: self.inner_return,
            attr_steps: steps_view(self.attr_steps@),
            spawn_with_attr: self.spawn_with_attr,
        }
    }
}

/// The segment names of a path, as texts.
pub open spec fn segment_texts(p: TypePath) -> Seq<Seq<char>> {
    p.segments@.map_values(|s: String| s@)
}

/// Segment names joined with `::`.
pub open spec fn joined(ss: Seq<Seq<char>>) -> Seq<char>
    decreases ss.len(),
{
    if ss.len() == 0 {
        Seq::empty()
    } else if ss.len() == 1 {
        ss[0]
    } else {
        joined(ss.drop_last()) + "::"@ + ss.last()
    }
}

/// Whether a path is taken for `napi_ohos::Result`: written out in full, or
/// as a bare `Result` assumed to be imported from there.
pub open spec fn napi_path_spec(p: TypePath) -> bool {
    let ss = segment_texts(p);
    joined(ss) == "napi_ohos::Result"@ || (ss.len() == 1 && ss[0] == "Result"@)
}

/// Whether the last segment of a path is named `Result`.
pub open spec fn ends_in_result(p: TypePath) -> bool {
    let ss = segment_texts(p);
    ss.len() > 0 && ss.last() == "Result"@
}

/// Whether a type is taken for `napi_ohos::Result<..>`.
pub open spec fn result_type_spec(t: TypeShape) -> bool {
    match t {
        TypeShape::Path(p) => ends_in_result(p) && napi_path_spec(p),
        TypeShape::Other => false,
    }
}

/// Where the success type of a `napi_ohos::Result<..>` is found, if it has one.
pub open spec fn result_inner_spec(t: TypeShape) -> Option<InnerReturn> {
    match t {
        TypeShape::Path(p) => if ends_in_result(p) && napi_path_spec(p) && p.first_arg_is_type {
            Some(InnerReturn::FirstTypeArgument)
        } else {
            None
        },
        TypeShape::Other => None,
    }
}

/// The expansion of the macro for the given arguments and function: only
/// `async` functions are accepted, a `Result` other than `napi_ohos::Result`
/// is refused, and the settings must be valid.
pub open spec fn convert_spec(args: ArgsView, f: FunctionShape) -> Result<PlanView, ErrorView> {
    if !f.is_async {
        Err(ErrorView { site: ErrorSite::Function, message: "ffrt macro only supports async functions"@ })
    } else if f.output matches ReturnShape::Type(TypeShape::Path(p)) && ends_in_result(p)
        && !napi_path_spec(p) {
        Err(
            ErrorView {
                site: ErrorSite::ReturnType,
                message: "ffrt macro requires napi_ohos::Result, not std::result::Result or other Result types"@,
            },
        )
    } else {
        match attr_setup_spec(args) {
            Err(e) => Err(e),
            Ok(steps) => Ok(
                PlanView {
                    returns_result: f.output matches ReturnShape::Type(t) && result_type_spec(t),
                    inner_return: match f.output {
                        ReturnShape::Default => InnerReturn::Unit,
                        ReturnShape::Type(t) => if result_type_spec(t) {
                            match result_inner_spec(t) {
                                Some(x) => x,
                                None => InnerReturn::Unit,
                            }
                        } else {
                            InnerReturn::AsDeclared
                        },
                    },
                    attr_steps: steps,
                    spawn_with_attr: args.has_any(),
                },
            ),
        }
    }
}

/// The segment names of a path joined with `::`.
pub fn join_segments(p: &TypePath) -> (s: String)
    ensures
        s@ == joined(segment_texts(*p)),
{
    let ghost ss = segment_texts(*p);
    let n = p.segments.len();
    let mut out = String::new();
    let mut i: usize = 0;
    while i < n
        invariant
            n == p.segments@.len(),
            ss == segment_texts(*p),
            i <= n,
            out@ == joined(ss.take(i as int)),
        decreases n - i,
    {
        proof {
            assert(ss.take(i + 1).drop_last() =~= ss.take(i as int));
            assert(ss.take(i + 1).last() == p.segments@[i as int]@);
            if i == 0 {
                assert(ss.take(0) =~= Seq::<Seq<char>>::empty());
            }
        }
        if i > 0 {
            out.append("::");
        }
        out.append(p.segments[i].as_str());
        i = i + 1;
    }
    proof {
        assert(ss.take(n as int) =~= ss);
    }
    out
}

/// Whether a path is taken for `napi_ohos::Result`.
pub fn is_napi_ohos_path(p: &TypePath) -> (r: bool)
    ensures
        r == napi_path_spec(*p),
{
    let joined_text = join_segments(p);
    text_eq(joined_text.as_str(), "napi_ohos::Result") || (p.segments.len() == 1 && text_eq(
        p.segments[0].as_str(),
        "Result",
    ))
}

fn ends_with_result(p: &TypePath) -> (r: bool)
    ensures
        r == ends_in_result(*p),
{
    let n = p.segments.len();
    n > 0 && text_eq(p.segments[n - 1].as_str(), "Result")
}

/// Whether a type is taken for `napi_ohos::Result<..>`.
pub fn is_result_type(t: &TypeShape) -> (r: bool)
    ensures
        r == result_type_spec(*t),
{
    match t {
        TypeShape::Path(p) => ends_with_result(p) && is_napi_ohos_path(p),
        TypeShape::Other => false,
    }
}

/// Where the success type of a `napi_ohos::Result<..>` is found, if it has one.
pub fn extract_result_inner_type(t: &TypeShape) -> (r: Option<InnerReturn>)
    ensures
        r == result_inner_spec(*t),
{
    match t {
        TypeShape::Path(p) => if ends_with_result(p) && is_napi_ohos_path(p) && p.first_arg_is_type {
            Some(InnerReturn::FirstTypeArgument)
        } else {
            None
        },
        TypeShape::Other => None,
    }
}

/// Plans the function the macro generates from the one it is attached to.
pub fn convert(args: &MacroArgs, f: &FunctionShape) -> (r: Result<ExpansionPlan, MacroError>)
    ensures
        match (r, convert_spec(args@, *f)) {
            (Ok(plan), Ok(sp)) => plan@ == sp,
            (Err(e), Err(se)) => e@ == se,
            _ => false,
        },
{
    if !f.is_async {
        return Err(
            MacroError {
                site: ErrorSite::Function,
                message: String::from_str("ffrt macro only supports async functions"),
            },
        );
    }
    match &f.output {
        ReturnShape::Type(TypeShape::Path(p)) => {
            if ends_with_result(p) && !is_napi_ohos_path(p) {
                return Err(
                    MacroError {
                        site: ErrorSite::ReturnType,
                        message: String::from_str(
                            "ffrt macro requires napi_ohos::Result, not std::result::Result or other Result types",
                        ),
                    },
                );
            }
        },
        _ => {},
    }
    let inner_return = match &f.output {
        ReturnShape::Default => InnerReturn::Unit,
        ReturnShape::Type(t) => if is_result_type(t) {
            match extract_result_inner_type(t) {
                Some(x) => x,
                None => InnerReturn::Unit,
            }
        } else {
            InnerReturn::AsDeclared
        },
    };
    let returns_result = match &f.output {
        ReturnShape::Default => false,
        ReturnShape::Type(t) => is_result_type(t),
    };
    let attr_steps = match build_attr_setup(args) {
        Ok(steps) => steps,
        Err(e) => {
            return Err(e);
        },
    };
    let spawn_with_attr = args.has_any_attr();
    Ok(ExpansionPlan { returns_result, inner_return, attr_steps, spawn_with_attr })
}

/// A QoS or priority value that the expansion takes as a variant name is
/// one that the parser accepts, so each of the parser's refusals is also
/// one of the expansion's.
pub proof fn lemma_expansion_names_parse(v: Seq<char>)
    ensures
        qos_named(v) is Some ==> crate::ffrt_macro::args::valid_qos_text(v),
        priority_named(v) is Some ==> crate::ffrt_macro::args::valid_priority_text(v),
{
    reveal_strlit("Inherit");
    reveal_strlit("inherit");
    reveal_strlit("Background");
    reveal_strlit("background");
    reveal_strlit("Utility");
    reveal_strlit("utility");
    reveal_strlit("Default");
    reveal_strlit("default");
    reveal_strlit("UserInitiated");
    reveal_strlit("userinitiated");
    reveal_strlit("Immediate");
    reveal_strlit("immediate");
    reveal_strlit("High");
    reveal_strlit("high");
    reveal_strlit("Low");
    reveal_strlit("low");
    reveal_strlit("Idle");
    reveal_strlit("idle");
}

/// An expansion spawns the task with its own attributes exactly when it
/// makes at least one setting on them.
pub proof fn lemma_plan_attr_consistent(args: ArgsView, f: FunctionShape)
    ensures
        convert_spec(args, f) matches Ok(p) ==> (p.spawn_with_attr <==> p.attr_steps.len() > 0),
{
}

/// The name of a QoS level's variant, as written in source.
pub open spec fn qos_variant_name(q: Qos) -> Seq<char> {
    match q {
        Qos::Inherit => "Inherit"@,
        Qos::Background => "Background"@,
        Qos::Utility => "Utility"@,
        Qos::Default => "Default"@,
        Qos::UserInitiated => "UserInitiated"@,
    }
}

/// The name of a priority's variant, as written in source.
pub open spec fn priority_variant_name(p: TaskPriority) -> Seq<char> {
    match p {
        TaskPriority::Immediate => "Immediate"@,
        TaskPriority::High => "High"@,
        TaskPriority::Low => "Low"@,
        TaskPriority::Idle => "Idle"@,
    }
}

/// Each variant name stands for its own level and priority: the expansion of
/// `qos = "<name of q>"` alone makes exactly the setting `Qos(q)`, and that of
/// `priority = "<name of p>"` alone exactly `Priority(p)`.
pub proof fn lemma_variant_names_map_to_themselves(q: Qos, p: TaskPriority)
    ensures
        qos_named(qos_variant_name(q)) == Some(q),
        priority_named(priority_variant_name(p)) == Some(p),
        attr_setup_spec(ArgsView { qos: Some(qos_variant_name(q)), ..ArgsView::empty() })
            == Ok::<Seq<AttrStepView>, ErrorView>(seq![AttrStepView::Qos(q)]),
        attr_setup_spec(ArgsView { priority: Some(priority_variant_name(p)), ..ArgsView::empty() })
            == Ok::<Seq<AttrStepView>, ErrorView>(seq![AttrStepView::Priority(p)]),
{
    match q {
        Qos::Inherit => {
            reveal_strlit("Inherit");
            assert(qos_named(qos_variant_name(q)) == Some(q));
        },
        Qos::Background => {
            reveal_strlit("Inherit");
            reveal_strlit("Background");
            assert(qos_named(qos_variant_name(q)) == Some(q));
        },
        Qos::Utility => {
            reveal_strlit("Inherit");
            reveal_strlit("Background");
            reveal_strlit("Utility");
            assert("Utility"@[0] != "Inherit"@[0]);
            assert(qos_named(qos_variant_name(q)) == Some(q));
        },
        Qos::Default => {
            reveal_strlit("Inherit");
            reveal_strlit("Background");
            reveal_strlit("Utility");
            reveal_strlit("Default");
            assert("Default"@[0] != "Inherit"@[0]);
            assert("Default"@[0] != "Utility"@[0]);
            assert(qos_named(qos_variant_name(q)) == Some(q));
        },
        Qos::UserInitiated => {
            reveal_strlit("Inherit");
            reveal_strlit("Background");
            reveal_strlit("Utility");
            reveal_strlit("Default");
            reveal_strlit("UserInitiated");
            assert(qos_named(qos_variant_name(q)) == Some(q));
        },
    }
    match p {
        TaskPriority::Immediate => {
            reveal_strlit("Immediate");
            assert(priority_named(priority_variant_name(p)) == Some(p));
        },
        TaskPriority::High => {
            reveal_strlit("Immediate");
            reveal_strlit("High");
            assert(priority_named(priority_variant_name(p)) == Some(p));
        },
        TaskPriority::Low => {
            reveal_strlit("Immediate");
            reveal_strlit("High");
            reveal_strlit("Low");
            assert(priority_named(priority_variant_name(p)) == Some(p));
        },
        TaskPriority::Idle => {
            reveal_strlit("Immediate");
            reveal_strlit("High");
            reveal_strlit("Low");
            reveal_strlit("Idle");
            assert("Idle"@[0] != "High"@[0]);
            assert(priority_named(priority_variant_name(p)) == Some(p));
        },
    }
    let a = ArgsView { qos: Some(qos_variant_name(q)), ..ArgsView::empty() };
    assert(attr_setup_spec(a)->Ok_0 =~= seq![AttrStepView::Qos(q)]);
    let b = ArgsView { priority: Some(priority_variant_name(p)), ..ArgsView::empty() };
    assert(attr_setup_spec(b)->Ok_0 =~= seq![AttrStepView::Priority(p)]);
}

} // verus!

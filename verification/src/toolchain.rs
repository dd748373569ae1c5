//! What a scan does with the outcome of each toolchain run: which run comes
//! next for a file, and what the output of a failed run is read as.
//! Starting the processes and waiting for them is the caller's part; a run
//! that could not be started is handed in as `None`.

use crate::scanner::{
    compiler_report_of, js_report_of, process_compiler_errors, process_js_error,
    process_python_error, pylint_errors, pylint_errors_of, python_report_of, CompilerReport,
    CompilerReportView, JsReport, JsReportView, PythonReport, PythonReportView,
};
use vstd::prelude::*;
use vstd::string::*;

verus! {

/// What a finished process left behind.
#[derive(Debug, Clone)]
pub struct ToolOutput {
    /// Whether the process reported success.
    pub success: bool,
    pub stdout: String,
    pub stderr: String,
}

/// The mathematical model of a [`ToolOutput`].
pub struct ToolOutputView {
    pub success: bool,
    pub stdout: Seq<char>,
    pub stderr: Seq<char>,
}

impl View for ToolOutput {
    type V = ToolOutputView;

    open spec fn view(&self) -> ToolOutputView {
        ToolOutputView { success: self.success, stdout: self.stdout@, stderr: self.stderr@ }
    }
}

impl DeepView for ToolOutput {
    type V = ToolOutputView;

    open spec fn deep_view(&self) -> ToolOutputView {
        self@
    }
}

/// A run that ended in failure, if the run is one.
pub open spec fn failure(output: Option<ToolOutputView>) -> Option<ToolOutputView> {
    match output {
        Some(o) => if o.success {
            None
        } else {
            Some(o)
        },
        None => None,
    }
}

fn failed(output: &Option<ToolOutput>) -> (res: Option<&ToolOutput>)
    ensures
        res.deep_view() == failure(output.deep_view()),
{
    match output {
        Some(o) => if o.success {
            None
        } else {
            Some(o)
        },
        None => None,
    }
}

// ---------------------------------------------------------------- C++

/// The C++ compilers that a scan knows, in the order in which it tries them.
#[derive(Debug, Clone, Copy, PartialEq, Eq, Structural)]
pub enum Compiler {
    Gcc,
    Clang,
}

/// The command that starts each compiler.
pub open spec fn compiler_command(compiler: Compiler) -> Seq<char> {
    match compiler {
        Compiler::Gcc => "g++"@,
        Compiler::Clang => "clang++"@,
    }
}

impl Compiler {
    /// The command that starts the compiler.
    pub fn command(&self) -> (res: &'static str)
        ensures
            res@ == compiler_command(*self),
    {
        match self {
            Compiler::Gcc => "g++",
            Compiler::Clang => "clang++",
        }
    }
}

/// What follows the attempt to compile one file.
#[derive(Debug, Clone)]
pub enum CppStep {
    /// The compiler could not be started: try this one.
    Retry(Compiler),
    /// No compiler could be started.
    Unavailable,
    /// The file compiled.
    Clean,
    /// The file did not compile.
    Failed(CompilerReport),
}

/// The mathematical model of a [`CppStep`].
pub enum CppStepView {
    Retry(Compiler),
    Unavailable,
    Clean,
    Failed(CompilerReportView),
}

impl View for CppStep {
    type V = CppStepView;

    open spec fn view(&self) -> CppStepView {
        match *self {
            CppStep::Retry(compiler) => CppStepView::Retry(compiler),
            CppStep::Unavailable => CppStepView::Unavailable,
            CppStep::Clean => CppStepView::Clean,
            CppStep::Failed(report) => CppStepView::Failed(report@),
        }
    }
}

/// GCC is tried first and Clang stands in where GCC cannot be started; the
/// error stream of a failed compilation is read as compiler output.
pub open spec fn cpp_step_of(compiler: Compiler, output: Option<ToolOutputView>) -> CppStepView {
    match output {
        None => match compiler {
            Compiler::Gcc => CppStepView::Retry(Compiler::Clang),
            Compiler::Clang => CppStepView::Unavailable,
        },
        Some(o) => if o.success {
            CppStepView::Clean
        } else {
            CppStepView::Failed(compiler_report_of(o.stderr))
        },
    }
}

/// Decides what follows the attempt to compile one file with `compiler`.
pub fn cpp_step(compiler: Compiler, output: &Option<ToolOutput>) -> (res: CppStep)
    ensures
        res@ == cpp_step_of(compiler, output.deep_view()),
{
    match output {
        None => match compiler {
            Compiler::Gcc => CppStep::Retry(Compiler::Clang),
            Compiler::Clang => CppStep::Unavailable,
        },
        Some(o) => if o.success {
            CppStep::Clean
        } else {
            CppStep::Failed(process_compiler_errors(o.stderr.as_str()))
        },
    }
}

// ------------------------------------------------ TypeScript and Rust

/// The TypeScript compiler reports on its output stream. A compiler that
/// could not be started reports nothing.
pub open spec fn typescript_step_of(output: Option<ToolOutputView>) -> Option<CompilerReportView> {
    match failure(output) {
        Some(o) => Some(compiler_report_of(o.stdout)),
        None => None,
    }
}

/// Reads the outcome of a TypeScript compilation.
pub fn typescript_step(output: &Option<ToolOutput>) -> (res: Option<CompilerReport>)
    ensures
        res.deep_view() == typescript_step_of(output.deep_view()),
{
    match failed(output) {
        Some(o) => Some(process_compiler_errors(o.stdout.as_str())),
        None => None,
    }
}

/// Cargo reports on its error stream.
pub open spec fn rust_step_of(output: ToolOutputView) -> Option<CompilerReportView> {
    if output.success {
        None
    } else {
        Some(compiler_report_of(output.stderr))
    }
}

/// Reads the outcome of a Cargo check.
pub fn rust_step(output: &ToolOutput) -> (res: Option<CompilerReport>)
    ensures
        res.deep_view() == rust_step_of(output@),
{
    if output.success {
        None
    } else {
        Some(process_compiler_errors(output.stderr.as_str()))
    }
}

// ------------------------------------------------------------- Python

/// The runs that a Python file goes through, in order.
#[derive(Debug, Clone, Copy, PartialEq, Eq, Structural)]
pub enum PythonStage {
    /// Byte-compiling the file, which finds syntax errors.
    Compile,
    /// Running the file, which finds errors that only show at run time.
    Run,
    /// Linting the file for errors.
    Lint,
}

/// What a run of a Python file found.
#[derive(Debug, Clone)]
pub enum PythonFinding {
    Nothing,
    /// The file does not compile.
    Syntax(PythonReport),
    /// The file failed when run.
    Runtime(PythonReport),
    /// The linter's error lines.
    Lint(Vec<String>),
}

/// The mathematical model of a [`PythonFinding`].
pub enum PythonFindingView {
    Nothing,
    Syntax(PythonReportView),
    Runtime(PythonReportView),
    Lint(Seq<Seq<char>>),
}

impl View for PythonFinding {
    type V = PythonFindingView;

    open spec fn view(&self) -> PythonFindingView {
        match *self {
            PythonFinding::Nothing => PythonFindingView::Nothing,
            PythonFinding::Syntax(report) => PythonFindingView::Syntax(report@),
            PythonFinding::Runtime(report) => PythonFindingView::Runtime(report@),
            PythonFinding::Lint(lines) => PythonFindingView::Lint(lines.deep_view()),
        }
    }
}

/// The number of errors in a finding.
pub open spec fn python_finding_count(finding: PythonFindingView) -> nat {
    match finding {
        PythonFindingView::Nothing => 0,
        PythonFindingView::Syntax(report) | PythonFindingView::Runtime(report) => if report.error
            is Some {
            1
        } else {
            0
        },
        PythonFindingView::Lint(lines) => lines.len(),
    }
}

impl PythonFinding {
    /// The number of errors found.
    pub fn count(&self) -> (res: usize)
        ensures
            res == python_finding_count(self@),
    {
        match self {
            PythonFinding::Nothing => 0,
            PythonFinding::Syntax(report) => report.count(),
            PythonFinding::Runtime(report) => report.count(),
            PythonFinding::Lint(lines) => lines.len(),
        }
    }
}

/// What a run of a Python file found, and the run that comes next.
#[derive(Debug, Clone)]
pub struct PythonStep {
    pub finding: PythonFinding,
    /// The next run for the same file; `None` where the file is done.
    pub next: Option<PythonStage>,
}

/// The mathematical model of a [`PythonStep`].
pub struct PythonStepView {
    pub finding: PythonFindingView,
    pub next: Option<PythonStage>,
}

impl View for PythonStep {
    type V = PythonStepView;

    open spec fn view(&self) -> PythonStepView {
        PythonStepView { finding: self.finding@, next: self.next }
    }
}

/// A file that does not compile is not run or linted. A file that compiles
/// is run, and a failed run counts where it printed an error; the file is
/// linted either way. A run that could not be started finds nothing.
pub open spec fn python_step_of(stage: PythonStage, output: Option<ToolOutputView>) -> PythonStepView {
    match stage {
        PythonStage::Compile => match failure(output) {
            Some(o) => PythonStepView {
                finding: PythonFindingView::Syntax(python_report_of(o.stderr)),
                next: None,
            },
            None => PythonStepView {
                finding: PythonFindingView::Nothing,
                next: Some(PythonStage::Run),
            },
        },
        PythonStage::Run => PythonStepView {
            finding: match failure(output) {
                Some(o) => if o.stderr.len() > 0 {
                    PythonFindingView::Runtime(python_report_of(o.stderr))
                } else {
                    PythonFindingView::Nothing
                },
                None => PythonFindingView::Nothing,
            },
            next: Some(PythonStage::Lint),
        },
        PythonStage::Lint => PythonStepView {
            finding: match output {
                Some(o) => PythonFindingView::Lint(pylint_errors_of(o.stdout)),
                None => PythonFindingView::Nothing,
            },
            next: None,
        },
    }
}

/// Decides what a run of a Python file found and which run comes next.
pub fn python_step(stage: PythonStage, output: &Option<ToolOutput>) -> (res: PythonStep)
    ensures
        res@ == python_step_of(stage, output.deep_view()),
{
    match stage {
        PythonStage::Compile => match failed(output) {
            Some(o) => PythonStep {
                finding: PythonFinding::Syntax(process_python_error(o.stderr.as_str())),
                next: None,
            },
            None => PythonStep { finding: PythonFinding::Nothing, next: Some(PythonStage::Run) },
        },
        PythonStage::Run => {
            let finding = match failed(output) {
                Some(o) => if !o.stderr.as_str().is_empty() {
                    PythonFinding::Runtime(process_python_error(o.stderr.as_str()))
                } else {
                    PythonFinding::Nothing
                },
                None => PythonFinding::Nothing,
            };
            PythonStep { finding, next: Some(PythonStage::Lint) }
        },
        PythonStage::Lint => {
            let finding = match output {
                Some(o) => PythonFinding::Lint(pylint_errors(o.stdout.as_str())),
                None => PythonFinding::Nothing,
            };
            PythonStep { finding, next: None }
        },
    }
}

// --------------------------------------------------------- JavaScript

/// The runs that a JavaScript file goes through, in order.
#[derive(Debug, Clone, Copy, PartialEq, Eq, Structural)]
pub enum JsStage {
    /// Checking the syntax without running.
    Check,
    /// Running the file.
    Run,
}

/// What a run of a JavaScript file found, and the run that comes next.
#[derive(Debug, Clone)]
pub struct JsStep {
    pub report: Option<JsReport>,
    /// The next run for the same file; `None` where the file is done.
    pub next: Option<JsStage>,
}

/// The mathematical model of a [`JsStep`].
pub struct JsStepView {
    pub report: Option<JsReportView>,
    pub next: Option<JsStage>,
}

impl View for JsStep {
    type V = JsStepView;

    open spec fn view(&self) -> JsStepView {
        JsStepView { report: self.report.deep_view(), next: self.next }
    }
}

/// A file that fails the syntax check is not run. A failed run counts where
/// it printed an error. A run that could not be started finds nothing.
pub open spec fn js_step_of(stage: JsStage, output: Option<ToolOutputView>) -> JsStepView {
    match stage {
        JsStage::Check => match failure(output) {
            Some(o) => JsStepView { report: Some(js_report_of(o.stderr)), next: None },
            None => JsStepView { report: None, next: Some(JsStage::Run) },
        },
        JsStage::Run => JsStepView {
            report: match failure(output) {
                Some(o) => if o.stderr.len() > 0 {
                    Some(js_report_of(o.stderr))
                } else {
                    None
                },
                None => None,
            },
            next: None,
        },
    }
}

/// Decides what a run of a JavaScript file found and which run comes next.
pub fn js_step(stage: JsStage, output: &Option<ToolOutput>) -> (res: JsStep)
    ensures
        res@ == js_step_of(stage, output.deep_view()),
{
    match stage {
        JsStage::Check => match failed(output) {
            Some(o) => JsStep { report: Some(process_js_error(o.stderr.as_str())), next: None },
            None => JsStep { report: None, next: Some(JsStage::Run) },
        },
        JsStage::Run => {
            let report = match failed(output) {
                Some(o) => if !o.stderr.as_str().is_empty() {
                    Some(process_js_error(o.stderr.as_str()))
                } else {
                    None
                },
                None => None,
            };
            JsStep { report, next: None }
        },
    }
}

} // verus!

//! What has to be installed before text can be read from screenshots.

use vstd::prelude::*;
use vstd::string::*;

verus! {

/// The system the application runs on.
#[derive(Clone, Copy, Debug, PartialEq, Eq)]
pub enum Platform {
    MacOs,
    Windows,
    Linux,
}

/// One step of the setup.
#[derive(Clone, Debug, PartialEq, Eq)]
pub enum SetupStep {
    /// Let the owner and the group read, write and run the file.
    MakeExecutable(String),
    /// Run the program.
    Run(String),
    /// Run the program through the command interpreter.
    RunInShell(String),
    /// Add the directory to the search path.
    AppendToPath(String),
}

/// A step with its path as a sequence of characters.
pub enum SetupStepView {
    MakeExecutable(Seq<char>),
    Run(Seq<char>),
    RunInShell(Seq<char>),
    AppendToPath(Seq<char>),
}

impl View for SetupStep {
    type V = SetupStepView;

    open spec fn view(&self) -> SetupStepView {
        match self {
            SetupStep::MakeExecutable(path) => SetupStepView::MakeExecutable(path@),
            SetupStep::Run(path) => SetupStepView::Run(path@),
            SetupStep::RunInShell(path) => SetupStepView::RunInShell(path@),
            SetupStep::AppendToPath(path) => SetupStepView::AppendToPath(path@),
        }
    }
}

/// The steps of a list, each by its view.
pub open spec fn steps_view(steps: Seq<SetupStep>) -> Seq<SetupStepView> {
    steps.map_values(|s: SetupStep| s@)
}

/// Number of characters of the prefix that marks a verbatim path.
pub const VERBATIM_PREFIX_LEN: usize = 4;

/// The steps that set the text recognition up. Where it is installed
/// nothing is run. On Windows its directory is added to the search path in
/// any case, and the installer is found under the resources directory
/// without its verbatim prefix.
pub open spec fn setup(platform: Platform, resources_data_dir: Seq<char>, installed: bool) -> Seq<SetupStepView> {
    match platform {
        Platform::MacOs => if installed {
            Seq::empty()
        } else {
            let script = resources_data_dir + "/resources/scripts/install-macos.sh"@;
            seq![SetupStepView::MakeExecutable(script), SetupStepView::Run(script)]
        },
        Platform::Windows => {
            let path = seq![SetupStepView::AppendToPath("C:\\Program Files\\Tesseract-OCR\\"@)];
            if installed {
                path
            } else {
                let installer = resources_data_dir.subrange(
                    VERBATIM_PREFIX_LEN as int,
                    resources_data_dir.len() as int,
                ) + "\\resources\\tesseract-ocr-w64-setup-5.3.1.20230401.exe"@;
                seq![SetupStepView::RunInShell(installer)] + path
            }
        },
        Platform::Linux => Seq::empty(),
    }
}

/// Plans the setup of the text recognition on `platform`, with the
/// resources of the application under `resources_data_dir`; `installed`
/// says whether the text recognition was found.
pub fn check_and_install_prerequisites(platform: Platform, resources_data_dir: &str, installed: bool) -> (steps: Vec<
    SetupStep,
>)
    requires
        platform == Platform::Windows && !installed ==> resources_data_dir@.len() >= VERBATIM_PREFIX_LEN,
    ensures
        steps_view(steps@) == setup(platform, resources_data_dir@, installed),
{
    let mut steps: Vec<SetupStep> = Vec::new();
    match platform {
        Platform::MacOs => {
            if !installed {
                let script = String::from_str(resources_data_dir).concat("/resources/scripts/install-macos.sh");
                steps.push(SetupStep::MakeExecutable(script.clone()));
                steps.push(SetupStep::Run(script));
            }
        },
        Platform::Windows => {
            if !installed {
                let len: usize = resources_data_dir.unicode_len();
                let installer = String::from_str(
                    resources_data_dir.substring_char(VERBATIM_PREFIX_LEN, len),
                ).concat("\\resources\\tesseract-ocr-w64-setup-5.3.1.20230401.exe");
                steps.push(SetupStep::RunInShell(installer));
            }
            steps.push(SetupStep::AppendToPath(String::from_str("C:\\Program Files\\Tesseract-OCR\\")));
        },
        Platform::Linux => {},
    }
    assert(steps_view(steps@) =~= setup(platform, resources_data_dir@, installed));
    steps
}

} // verus!

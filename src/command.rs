//! User commands and their translation into manager-agnostic actions.

use vstd::prelude::*;

verus! {

/// What the user asks for.
#[derive(Clone, Copy, Debug, PartialEq, Eq, Structural)]
pub enum Command {
    Install,
    Reinstall,
    Remove,
    Update,
    Upgrade,
    List,
    Search,
    View,
}

/// A manager-agnostic instruction.
#[derive(Debug)]
pub enum Action {
    Install(String),
    Reinstall(String),
    Uninstall(String),
    View(String),
    Search(String),
    List,
    Update,
}

/// The mathematical model of an [`Action`]: package names as character sequences.
pub ghost enum ActionView {
    Install(Seq<char>),
    Reinstall(Seq<char>),
    Uninstall(Seq<char>),
    View(Seq<char>),
    Search(Seq<char>),
    List,
    Update,
}

impl View for Action {
    type V = ActionView;

    open spec fn view(&self) -> ActionView {
        match self {
            Action::Install(p) => ActionView::Install(p@),
            Action::Reinstall(p) => ActionView::Reinstall(p@),
            Action::Uninstall(p) => ActionView::Uninstall(p@),
            Action::View(p) => ActionView::View(p@),
            Action::Search(p) => ActionView::Search(p@),
            Action::List => ActionView::List,
            Action::Update => ActionView::Update,
        }
    }
}

/// Why a command could not be translated.
#[derive(Clone, Copy, Debug, PartialEq, Eq, Structural)]
pub enum TranslateError {
    /// The command needs a package, none was given, and prompting gave none.
    InvalidPackageName,
}

impl Command {
    /// Commands that act on a named package.
    pub open spec fn requires_package(self) -> bool {
        match self {
            Command::List | Command::Update | Command::Upgrade => false,
            _ => true,
        }
    }

    /// Whether the underlying manager invocation may ask for confirmation.
    pub open spec fn is_interactive(self) -> bool {
        match self {
            Command::Install | Command::Reinstall | Command::Remove => true,
            _ => false,
        }
    }

    pub fn needs_package(&self) -> (r: bool)
        ensures
            r == self.requires_package(),
    {
        match self {
            Command::List | Command::Update | Command::Upgrade => false,
            _ => true,
        }
    }
}

/// The action a command stands for; `pkg` is used only by commands that
/// require a package.
pub open spec fn action_of(c: Command, pkg: Seq<char>) -> ActionView {
    match c {
        Command::Install => ActionView::Install(pkg),
        Command::Reinstall => ActionView::Reinstall(pkg),
        Command::Remove => ActionView::Uninstall(pkg),
        Command::View => ActionView::View(pkg),
        Command::Search => ActionView::Search(pkg),
        Command::List => ActionView::List,
        Command::Update | Command::Upgrade => ActionView::Update,
    }
}

/// The package name that a translation uses: the given one when it is not
/// empty, else the prompted one.  `None` when neither provides a name.
pub open spec fn chosen_package(package: Seq<char>, prompted: Option<Seq<char>>) -> Option<
    Seq<char>,
> {
    if package.len() > 0 {
        Some(package)
    } else {
        match prompted {
            Some(p) if p.len() > 0 => Some(p),
            _ => None,
        }
    }
}

/// The answer of a prompt, as character sequences.
pub open spec fn prompted_view(prompted: Option<String>) -> Option<Seq<char>> {
    match prompted {
        Some(p) => Some(p@),
        None => None,
    }
}

/// What translating `c` yields, given the package argument and the answer
/// of the prompt (`None` when the prompt failed or was not made).
pub open spec fn translation(c: Command, package: Seq<char>, prompted: Option<Seq<char>>) -> Result<
    (ActionView, bool),
    TranslateError,
> {
    if !c.requires_package() {
        Ok((action_of(c, seq![]), c.is_interactive()))
    } else {
        match chosen_package(package, prompted) {
            Some(p) => Ok((action_of(c, p), c.is_interactive())),
            None => Err(TranslateError::InvalidPackageName),
        }
    }
}

/// The model of a translation's result.
pub open spec fn translation_view(r: Result<(Action, bool), TranslateError>) -> Result<
    (ActionView, bool),
    TranslateError,
> {
    match r {
        Ok((a, i)) => Ok((a@, i)),
        Err(e) => Err(e),
    }
}

/// The user has to be prompted for a package before translating.
pub open spec fn prompt_needed(c: Command, package: Seq<char>) -> bool {
    c.requires_package() && package.len() == 0
}

/// Whether the user has to be prompted for a package before translating.
pub fn needs_prompt(command: &Command, package: &String) -> (r: bool)
    ensures
        r == prompt_needed(*command, package@),
{
    command.needs_package() && package.as_str().is_empty()
}

/// Translates a command into an action and its interactivity.
///
/// Commands without a package ignore `package` and `prompted`.  For the
/// others, a non-empty `package` is used verbatim; an empty one is replaced
/// by `prompted`, the answer of the prompt (`None` when prompting failed).
pub fn command_to_pacmanager_command(
    command: Command,
    package: String,
    prompted: Option<String>,
) -> (r: Result<(Action, bool), TranslateError>)
    ensures
        translation_view(r) == translation(command, package@, prompted_view(prompted)),
{
    match command {
        Command::List => return Ok((Action::List, false)),
        Command::Update => return Ok((Action::Update, false)),
        Command::Upgrade => return Ok((Action::Update, false)),
        _ => {},
    }
    let pkg = if !package.as_str().is_empty() {
        package
    } else {
        match prompted {
            Some(p) => {
                if !p.as_str().is_empty() {
                    p
                } else {
                    return Err(TranslateError::InvalidPackageName);
                }
            },
            None => return Err(TranslateError::InvalidPackageName),
        }
    };
    match command {
        Command::Install => Ok((Action::Install(pkg), true)),
        Command::Reinstall => Ok((Action::Reinstall(pkg), true)),
        Command::Remove => Ok((Action::Uninstall(pkg), true)),
        Command::View => Ok((Action::View(pkg), false)),
        _ => Ok((Action::Search(pkg), false)),
    }
}

} // verus!

verus! {

/// Commands without a package need no prompt, never use the package
/// argument nor the prompt's answer, and never ask for confirmation.
pub proof fn lemma_packageless_commands(
    c: Command,
    package: Seq<char>,
    prompted: Option<Seq<char>>,
    other_package: Seq<char>,
    other_prompted: Option<Seq<char>>,
)
    requires
        c == Command::List || c == Command::Update || c == Command::Upgrade,
    ensures
        !prompt_needed(c, package),
        translation(c, package, prompted) == translation(c, other_package, other_prompted),
        translation(c, package, prompted) matches Ok((_, i)) && !i,
{
}

/// Install, reinstall and remove always ask for confirmation, whether or not
/// a package was given.
pub proof fn lemma_modifying_commands_interactive(
    c: Command,
    package: Seq<char>,
    prompted: Option<Seq<char>>,
)
    requires
        c == Command::Install || c == Command::Reinstall || c == Command::Remove,
    ensures
        translation(c, package, prompted) matches Ok((_, i)) ==> i,
{
}

/// Search and view never ask for confirmation.
pub proof fn lemma_queries_not_interactive(
    c: Command,
    package: Seq<char>,
    prompted: Option<Seq<char>>,
)
    requires
        c == Command::Search || c == Command::View,
    ensures
        translation(c, package, prompted) matches Ok((_, i)) ==> !i,
{
}

/// A non-empty package is used verbatim and no prompt is needed: the
/// prompt's answer has no effect.
pub proof fn lemma_given_package_verbatim(
    c: Command,
    package: Seq<char>,
    prompted: Option<Seq<char>>,
)
    requires
        c.requires_package(),
        package.len() > 0,
    ensures
        !prompt_needed(c, package),
        translation(c, package, prompted) == Ok::<(ActionView, bool), TranslateError>(
            (action_of(c, package), c.is_interactive()),
        ),
        translation(c, package, prompted) == translation(c, package, None),
{
}

/// With an empty package a prompt is needed, and the action carries the
/// prompt's answer.
pub proof fn lemma_prompted_package_used(c: Command, answer: Seq<char>)
    requires
        c.requires_package(),
        answer.len() > 0,
    ensures
        prompt_needed(c, Seq::empty()),
        translation(c, Seq::empty(), Some(answer)) == Ok::<(ActionView, bool), TranslateError>(
            (action_of(c, answer), c.is_interactive()),
        ),
        translation(c, Seq::empty(), Some(Seq::empty())) == Err::<(ActionView, bool), TranslateError>(
            TranslateError::InvalidPackageName,
        ),
        translation(c, Seq::empty(), None) == Err::<(ActionView, bool), TranslateError>(
            TranslateError::InvalidPackageName,
        ),
{
}

} // verus!

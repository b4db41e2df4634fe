use vstd::prelude::*;

verus! {

/// How a spawned process relates to the caller: `Wait` blocks until the
/// child exits; `Detach` starts it with all three standard streams discarded
/// and returns at once; `DetachWithOutput` starts it with the standard
/// streams left connected and returns at once.
#[derive(Debug, Clone, Copy, PartialEq, Eq, Structural)]
pub enum CommandCreationType {
    Wait,
    Detach,
    DetachWithOutput,
}

impl CommandCreationType {
    /// The default creation mode: detach.
    pub fn detach() -> (r: Self)
        ensures
            r is Detach,
    {
        CommandCreationType::Detach
    }
}

/// An abstract, executor-agnostic description of one process-launch request.
/// `System` asks the operating system's default "open" mechanism to handle a
/// target; `Custom` names the executable itself.  It carries no execution
/// logic and owns no operating-system resource.
#[derive(Debug, Clone)]
pub enum CommandIntent {
    System { target: String, creation_type: CommandCreationType },
    Custom {
        target: String,
        arguments: Vec<String>,
        working_directory: Option<String>,
        creation_type: CommandCreationType,
    },
}

/// The mathematical shape of a command intent: every textual field reduced
/// to its character sequence.
pub enum IntentView {
    System { target: Seq<char>, creation_type: CommandCreationType },
    Custom {
        target: Seq<char>,
        arguments: Seq<Seq<char>>,
        working_directory: Option<Seq<char>>,
        creation_type: CommandCreationType,
    },
}

impl View for CommandIntent {
    type V = IntentView;

    open spec fn view(&self) -> IntentView {
        match self {
            CommandIntent::System { target, creation_type } => IntentView::System {
                target: target@,
                creation_type: *creation_type,
            },
            CommandIntent::Custom { target, arguments, working_directory, creation_type } => (
            IntentView::Custom {
                target: target@,
                arguments: arguments.deep_view(),
                working_directory: match working_directory {
                    Some(w) => Some(w@),
                    None => None,
                },
                creation_type: *creation_type,
            }),
        }
    }
}

impl DeepView for CommandIntent {
    type V = IntentView;

    open spec fn deep_view(&self) -> IntentView {
        self.view()
    }
}

} // verus!

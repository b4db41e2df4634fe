use vstd::prelude::*;

use crate::context::Context;
use crate::intent::{CommandCreationType, CommandIntent};
use crate::resolve::{resolve_seq, Resolvable};
use crate::text::str_starts_with;

verus! {

/// The family of the host operating system, as far as the resolution rules
/// care: the Windows family has its own default install path for the IDE,
/// everything else falls back to a bare command name.
#[derive(Debug, Clone, Copy, PartialEq, Eq, Structural)]
pub enum Platform {
    Windows,
    Other,
}

/// The scheme prefix that marks an IDE target as a remote folder.
pub open spec fn remote_uri_prefix() -> Seq<char> {
    "vscode-remote://"@
}

/// The default IDE install path on the Windows family, with the usual
/// placeholder for the local application-data directory.
pub open spec fn windows_vscode_default() -> Seq<char> {
    "%LOCALAPPDATA%\\Programs\\Microsoft VS Code\\Code.exe"@
}

/// The concrete argument lists a `Custom` intent carries, as sequences of
/// character sequences: the configured arguments, if any, with the target
/// appended as the final argument.
pub open spec fn args_then_target(args: Option<Vec<String>>, target: Seq<char>) -> Seq<Seq<char>> {
    (match args {
        Some(list) => list.deep_view(),
        None => Seq::empty(),
    }) + seq![target]
}

/// The argument list for an IDE-open request: the target alone, or
/// `--folder-uri` first when the target names a remote folder.
pub open spec fn vscode_arguments(target: Seq<char>) -> Seq<Seq<char>> {
    if remote_uri_prefix().is_prefix_of(target) {
        seq!["--folder-uri"@, target]
    } else {
        seq![target]
    }
}

/// The platform-aware resolution layer: optional user overrides for the web
/// browser, the editor and the IDE, plus the host platform, from which each
/// abstract "open" request is turned into a concrete command intent.
#[derive(Debug, Clone)]
pub struct System {
    pub web_browser_path: Option<String>,
    pub web_browser_arguments: Option<Vec<String>>,
    pub editor_path: Option<String>,
    pub editor_arguments: Option<Vec<String>>,
    pub vscode_path: Option<String>,
    pub defaults_to_interactive: bool,
    pub platform: Platform,
}

/// The executable an IDE-open request runs: the configured override if one
/// is set, otherwise the platform's default install path — resolved against
/// the process environment on the Windows family — or the bare command name
/// `code` elsewhere.
pub open spec fn vscode_executable_spec(sys: System, env: Map<Seq<char>, Seq<char>>) -> Seq<
    char,
> {
    match sys.vscode_path {
        Some(path) => path@,
        None => if sys.platform is Windows {
            resolve_seq(windows_vscode_default(), Map::empty(), env)
        } else {
            "code"@
        },
    }
}

/// Clones a list of argument strings, appending the target as the final
/// argument.
fn build_arguments(args: &Option<Vec<String>>, target: &String) -> (r: Vec<String>)
    ensures
        r.deep_view() == args_then_target(*args, target@),
{
    let mut r: Vec<String> = Vec::new();
    match args {
        Some(list) => {
            let mut i: usize = 0;
            while i < list.len()
                invariant
                    i <= list@.len(),
                    r@.len() == i,
                    forall|j: int| 0 <= j < i ==> #[trigger] r@[j]@ == list@[j]@,
                decreases list@.len() - i,
            {
                r.push(list[i].clone());
                i = i + 1;
            }
            proof {
                assert(r.deep_view() =~= list.deep_view());
            }
        },
        None => {
            proof {
                assert(r.deep_view() =~= Seq::<Seq<char>>::empty());
            }
        },
    }
    let ghost base = r.deep_view();
    r.push(target.clone());
    proof {
        assert(r.deep_view() =~= base + seq![target@]);
    }
    r
}

impl System {
    /// Builds a system description from its overrides and the host platform.
    pub fn new(
        web_browser_path: Option<String>,
        web_browser_arguments: Option<Vec<String>>,
        editor_path: Option<String>,
        editor_arguments: Option<Vec<String>>,
        vscode_path: Option<String>,
        defaults_to_interactive: bool,
        platform: Platform,
    ) -> (r: Self)
        ensures
            r.web_browser_path == web_browser_path,
            r.web_browser_arguments == web_browser_arguments,
            r.editor_path == editor_path,
            r.editor_arguments == editor_arguments,
            r.vscode_path == vscode_path,
            r.defaults_to_interactive == defaults_to_interactive,
            r.platform == platform,
    {
        System {
            web_browser_path,
            web_browser_arguments,
            editor_path,
            editor_arguments,
            vscode_path,
            defaults_to_interactive,
            platform,
        }
    }

    /// Whether, with no command given, the program should fall into the
    /// interactive selector rather than list the environments.
    pub fn should_defaults_to_interactive(&self) -> (r: bool)
        ensures
            r == self.defaults_to_interactive,
    {
        self.defaults_to_interactive
    }

    /// The intent that opens a URL: the configured browser with its
    /// arguments and the target appended, detached; or, with no override,
    /// the operating system's default handler, detached.
    pub fn open_web_browser(&self, target: &String) -> (r: CommandIntent)
        ensures
            match self.web_browser_path {
                Some(path) => {
                    &&& r matches CommandIntent::Custom {
                        target: t,
                        arguments,
                        working_directory,
                        creation_type,
                    }
                    &&& t@ == path@
                    &&& arguments.deep_view() == args_then_target(
                        self.web_browser_arguments,
                        target@,
                    )
                    &&& working_directory is None
                    &&& creation_type is Detach
                },
                None => {
                    &&& r matches CommandIntent::System { target: t, creation_type }
                    &&& t@ == target@
                    &&& creation_type is Detach
                },
            },
    {
        match &self.web_browser_path {
            Some(path) => CommandIntent::Custom {
                target: path.clone(),
                arguments: build_arguments(&self.web_browser_arguments, target),
                working_directory: None,
                creation_type: CommandCreationType::Detach,
            },
            None => CommandIntent::System {
                target: target.clone(),
                creation_type: CommandCreationType::Detach,
            },
        }
    }

    /// The executable an IDE-open request runs; the Windows default path has
    /// its environment placeholder substituted at this point.
    fn get_vscode_executable(&self, env: &Context) -> (r: String)
        ensures
            r@ == vscode_executable_spec(*self, env@),
    {
        match &self.vscode_path {
            Some(path) => path.clone(),
            None => match self.platform {
                Platform::Windows => {
                    let empty = Context::empty();
                    let mut path: String =
                        "%LOCALAPPDATA%\\Programs\\Microsoft VS Code\\Code.exe".to_owned();
                    path.resolve(&empty, env);
                    path
                },
                Platform::Other => "code".to_owned(),
            },
        }
    }

    /// The intent that opens a target in the IDE: the resolved IDE
    /// executable, a `--folder-uri` flag first when the target is a remote
    /// folder URI, the target as the final argument, detached.
    pub fn open_vscode(&self, target: &String, env: &Context) -> (r: CommandIntent)
        ensures
            r matches CommandIntent::Custom {
                target: t,
                arguments,
                working_directory,
                creation_type,
            } && t@ == vscode_executable_spec(*self, env@) && arguments.deep_view()
                == vscode_arguments(target@) && working_directory is None
                && creation_type is Detach,
    {
        let mut arguments: Vec<String> = Vec::new();
        if str_starts_with(target.as_str(), "vscode-remote://") {
            arguments.push("--folder-uri".to_owned());
        }
        arguments.push(target.clone());
        proof {
            assert(arguments.deep_view() =~= vscode_arguments(target@));
        }
        CommandIntent::Custom {
            target: self.get_vscode_executable(env),
            arguments,
            working_directory: None,
            creation_type: CommandCreationType::Detach,
        }
    }

    /// The intent that opens a target in the editor: as for the browser, but
    /// the caller waits for the editor to finish.
    pub fn open_editor(&self, target: &String) -> (r: CommandIntent)
        ensures
            match self.editor_path {
                Some(path) => {
                    &&& r matches CommandIntent::Custom {
                        target: t,
                        arguments,
                        working_directory,
                        creation_type,
                    }
                    &&& t@ == path@
                    &&& arguments.deep_view() == args_then_target(self.editor_arguments, target@)
                    &&& working_directory is None
                    &&& creation_type is Wait
                },
                None => {
                    &&& r matches CommandIntent::System { target: t, creation_type }
                    &&& t@ == target@
                    &&& creation_type is Wait
                },
            },
    {
        match &self.editor_path {
            Some(path) => CommandIntent::Custom {
                target: path.clone(),
                arguments: build_arguments(&self.editor_arguments, target),
                working_directory: None,
                creation_type: CommandCreationType::Wait,
            },
            None => CommandIntent::System {
                target: target.clone(),
                creation_type: CommandCreationType::Wait,
            },
        }
    }

    /// The intent that opens a file or folder: always the operating system's
    /// default handler, detached; there is no override for the generic open.
    pub fn open_file(&self, target: &String) -> (r: CommandIntent)
        ensures
            r matches CommandIntent::System { target: t, creation_type } && t@ == target@
                && creation_type is Detach,
    {
        CommandIntent::System {
            target: target.clone(),
            creation_type: CommandCreationType::Detach,
        }
    }
}

impl Default for System {
    /// The default system: no overrides, non-interactive, a non-Windows
    /// platform.
    fn default() -> (r: Self)
        ensures
            r.web_browser_path is None,
            r.web_browser_arguments is None,
            r.editor_path is None,
            r.editor_arguments is None,
            r.vscode_path is None,
            !r.defaults_to_interactive,
            r.platform is Other,
    {
        System {
            web_browser_path: None,
            web_browser_arguments: None,
            editor_path: None,
            editor_arguments: None,
            vscode_path: None,
            defaults_to_interactive: false,
            platform: Platform::Other,
        }
    }
}

} // verus!

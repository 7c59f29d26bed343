//! The platform resolver: the operating-system class and the OS-specific
//! primitives able to hand a path or URL to the shell.

use vstd::prelude::*;

use crate::text::str_eq_str;

verus! {

/// The operating-system class the process runs on.  It is resolved once,
/// outside this library, from the name the standard library reports, and
/// is immutable for the life of the process.  An unrecognised name maps
/// to `Unknown` rather than failing.
#[derive(Clone, Copy, PartialEq, Eq, Structural, Debug)]
pub enum Platform {
    Windows,
    MacOS,
    Linux,
    Unknown,
}

impl Platform {
    /// The lower-case name reported for this platform class.
    pub open spec fn os_info_spec(self) -> Seq<char> {
        match self {
            Platform::Windows => "windows"@,
            Platform::MacOS => "macos"@,
            Platform::Linux => "linux"@,
            Platform::Unknown => "unknown"@,
        }
    }

    /// The name of the OS program able to open a folder or file.
    pub open spec fn opener_program_spec(self) -> Seq<char> {
        match self {
            Platform::Windows => "explorer"@,
            Platform::MacOS => "open"@,
            Platform::Linux => "xdg-open"@,
            Platform::Unknown => "xdg-open"@,
        }
    }

    /// The OS program that hands a URL to the shell when spawned directly,
    /// together with the fixed arguments that precede the URL.
    pub open spec fn shell_open_program_spec(self) -> Seq<char> {
        match self {
            Platform::Windows => "cmd"@,
            Platform::MacOS => "open"@,
            Platform::Linux => "xdg-open"@,
            Platform::Unknown => "xdg-open"@,
        }
    }

    /// The fixed arguments that precede the URL when the shell-open
    /// program is spawned directly.
    pub open spec fn shell_open_args_spec(self) -> Seq<Seq<char>> {
        match self {
            Platform::Windows => seq!["/C"@, "start"@],
            Platform::MacOS => Seq::<Seq<char>>::empty(),
            Platform::Linux => Seq::<Seq<char>>::empty(),
            Platform::Unknown => Seq::<Seq<char>>::empty(),
        }
    }

    /// Maps an operating-system name, as the standard library reports it,
    /// to a platform class; anything unrecognised is `Unknown`.
    pub fn from_os_name(name: &str) -> (p: Platform)
        ensures
            name@ == "windows"@ ==> p == Platform::Windows,
            name@ == "macos"@ ==> p == Platform::MacOS,
            name@ == "linux"@ ==> p == Platform::Linux,
            name@ != "windows"@ && name@ != "macos"@ && name@ != "linux"@ ==> p
                == Platform::Unknown,
            p != Platform::Unknown ==> name@ == p.os_info_spec(),
    {
        proof {
            reveal_strlit("windows");
            reveal_strlit("macos");
            reveal_strlit("linux");
            reveal_strlit("unknown");
        }
        proof {
            assert("windows"@.len() == 7);
            assert("macos"@.len() == 5);
            assert("linux"@.len() == 5);
            assert("macos"@[0] == 'm');
            assert("linux"@[0] == 'l');
        }
        if str_eq_str(name, "windows") {
            Platform::Windows
        } else if str_eq_str(name, "macos") {
            Platform::MacOS
        } else if str_eq_str(name, "linux") {
            Platform::Linux
        } else {
            Platform::Unknown
        }
    }

    /// The lower-case name of this platform class, as reported to callers.
    pub fn os_info(&self) -> (r: String)
        ensures
            r@ == self.os_info_spec(),
    {
        match self {
            Platform::Windows => String::from_str("windows"),
            Platform::MacOS => String::from_str("macos"),
            Platform::Linux => String::from_str("linux"),
            Platform::Unknown => String::from_str("unknown"),
        }
    }

    /// The OS program able to open a folder or file on this platform.
    pub fn opener_program(&self) -> (r: String)
        ensures
            r@ == self.opener_program_spec(),
    {
        match self {
            Platform::Windows => String::from_str("explorer"),
            Platform::MacOS => String::from_str("open"),
            Platform::Linux => String::from_str("xdg-open"),
            Platform::Unknown => String::from_str("xdg-open"),
        }
    }

    /// The program and fixed leading arguments for a direct shell-open
    /// spawn on this platform.
    pub fn shell_open_command(&self) -> (r: (String, Vec<String>))
        ensures
            r.0@ == self.shell_open_program_spec(),
            r.1.deep_view() == self.shell_open_args_spec(),
    {
        match self {
            Platform::Windows => {
                let mut args: Vec<String> = Vec::new();
                args.push(String::from_str("/C"));
                args.push(String::from_str("start"));
                proof {
                    assert(args.deep_view() =~= self.shell_open_args_spec());
                }
                (String::from_str("cmd"), args)
            },
            Platform::MacOS => {
                let args: Vec<String> = Vec::new();
                proof {
                    assert(args.deep_view() =~= self.shell_open_args_spec());
                }
                (String::from_str("open"), args)
            },
            Platform::Linux => {
                let args: Vec<String> = Vec::new();
                proof {
                    assert(args.deep_view() =~= self.shell_open_args_spec());
                }
                (String::from_str("xdg-open"), args)
            },
            Platform::Unknown => {
                let args: Vec<String> = Vec::new();
                proof {
                    assert(args.deep_view() =~= self.shell_open_args_spec());
                }
                (String::from_str("xdg-open"), args)
            },
        }
    }
}

} // verus!

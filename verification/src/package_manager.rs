//! Package-manager command strings and the detection cascade.
//!
//! Resolution is pure: the outer shell gathers the signals (directory
//! listing, wrapper environment variable, binary probes) and [`resolve`]
//! picks the manager by strict priority, never failing.

use vstd::prelude::*;
use vstd::string::StringExecFns;
use crate::config::PackageManager;
use crate::text::{has_substr, str_contains, str_eq, str_views};

verus! {

/// First lock-file match in the given directory listing, in listing order.
pub open spec fn lock_file_choice(files: Seq<Seq<char>>) -> Option<PackageManager>
    decreases files.len(),
{
    if files.len() == 0 {
        Option::None
    } else if files[0] == "bun.lockb"@ {
        Option::Some(PackageManager::Bun)
    } else if files[0] == "pnpm-lock.yaml"@ {
        Option::Some(PackageManager::Pnpm)
    } else if files[0] == "yarn.lock"@ {
        Option::Some(PackageManager::Yarn)
    } else if files[0] == "package-lock.json"@ {
        Option::Some(PackageManager::Npm)
    } else {
        lock_file_choice(files.skip(1))
    }
}

/// Manager named by the wrapper user-agent string, first substring match
/// in the fixed check order.
pub open spec fn agent_choice(agent: Seq<char>) -> Option<PackageManager> {
    if has_substr(agent, "bun"@) {
        Option::Some(PackageManager::Bun)
    } else if has_substr(agent, "pnpm"@) {
        Option::Some(PackageManager::Pnpm)
    } else if has_substr(agent, "yarn"@) {
        Option::Some(PackageManager::Yarn)
    } else {
        Option::None
    }
}

/// First manager whose binary exists, in the fixed priority order.
pub open spec fn binary_choice(has_bun: bool, has_pnpm: bool, has_yarn: bool) -> Option<
    PackageManager,
> {
    if has_bun {
        Option::Some(PackageManager::Bun)
    } else if has_pnpm {
        Option::Some(PackageManager::Pnpm)
    } else if has_yarn {
        Option::Some(PackageManager::Yarn)
    } else {
        Option::None
    }
}

/// The view of an optional borrowed string.
pub open spec fn opt_str_view(s: Option<&String>) -> Option<Seq<char>> {
    match s {
        Option::Some(a) => Option::Some(a@),
        Option::None => Option::None,
    }
}

/// The full priority cascade: explicit choice, lock files, user agent,
/// binary probes, then the npm default.
pub open spec fn resolve_spec(
    choice: Option<PackageManager>,
    locks: Seq<Seq<char>>,
    agent: Option<Seq<char>>,
    has_bun: bool,
    has_pnpm: bool,
    has_yarn: bool,
) -> PackageManager {
    match choice {
        Option::Some(pm) => pm,
        Option::None => match lock_file_choice(locks) {
            Option::Some(pm) => pm,
            Option::None => {
                let from_agent = match agent {
                    Option::Some(a) => agent_choice(a),
                    Option::None => Option::None,
                };
                match from_agent {
                    Option::Some(pm) => pm,
                    Option::None => match binary_choice(has_bun, has_pnpm, has_yarn) {
                        Option::Some(pm) => pm,
                        Option::None => PackageManager::Npm,
                    },
                }
            },
        },
    }
}

impl PackageManager {
    /// The manager selected by a prompt index; out-of-range indices fall
    /// back to npm.
    pub fn from_index(i: usize) -> (r: PackageManager)
        ensures
            r == (if i == 1 {
                PackageManager::Pnpm
            } else if i == 2 {
                PackageManager::Yarn
            } else if i == 3 {
                PackageManager::Bun
            } else {
                PackageManager::Npm
            }),
    {
        match i {
            1 => PackageManager::Pnpm,
            2 => PackageManager::Yarn,
            3 => PackageManager::Bun,
            _ => PackageManager::Npm,
        }
    }

    /// The manager with the given name, if any.
    pub fn from_name(s: &str) -> (r: Option<PackageManager>)
        ensures
            r == (if s@ == "npm"@ {
                Option::Some(PackageManager::Npm)
            } else if s@ == "pnpm"@ {
                Option::Some(PackageManager::Pnpm)
            } else if s@ == "yarn"@ {
                Option::Some(PackageManager::Yarn)
            } else if s@ == "bun"@ {
                Option::Some(PackageManager::Bun)
            } else {
                Option::None
            }),
    {
        if str_eq(s, "npm") {
            Some(PackageManager::Npm)
        } else if str_eq(s, "pnpm") {
            Some(PackageManager::Pnpm)
        } else if str_eq(s, "yarn") {
            Some(PackageManager::Yarn)
        } else if str_eq(s, "bun") {
            Some(PackageManager::Bun)
        } else {
            None
        }
    }

    /// The install command printed to the user.
    pub fn install_cmd(&self) -> (r: &'static str)
        ensures
            self == PackageManager::Npm ==> r@ == "npm install"@,
            self == PackageManager::Pnpm ==> r@ == "pnpm install"@,
            self == PackageManager::Yarn ==> r@ == "yarn install"@,
            self == PackageManager::Bun ==> r@ == "bun install"@,
    {
        match self {
            PackageManager::Npm => "npm install",
            PackageManager::Pnpm => "pnpm install",
            PackageManager::Yarn => "yarn install",
            PackageManager::Bun => "bun install",
        }
    }

    /// The command that starts the development server.
    pub fn dev_cmd(&self) -> (r: &'static str)
        ensures
            self == PackageManager::Npm ==> r@ == "npm run dev"@,
            self == PackageManager::Pnpm ==> r@ == "pnpm dev"@,
            self == PackageManager::Yarn ==> r@ == "yarn dev"@,
            self == PackageManager::Bun ==> r@ == "bun run dev"@,
    {
        match self {
            PackageManager::Npm => "npm run dev",
            PackageManager::Pnpm => "pnpm dev",
            PackageManager::Yarn => "yarn dev",
            PackageManager::Bun => "bun run dev",
        }
    }

    /// The command that runs the given manifest script.
    pub fn run_cmd(&self, script: &str) -> (r: String)
        ensures
            self == PackageManager::Npm ==> r@ == "npm run "@ + script@,
            self == PackageManager::Pnpm ==> r@ == "pnpm "@ + script@,
            self == PackageManager::Yarn ==> r@ == "yarn "@ + script@,
            self == PackageManager::Bun ==> r@ == "bun run "@ + script@,
    {
        let mut out = match self {
            PackageManager::Npm => String::from_str("npm run "),
            PackageManager::Pnpm => String::from_str("pnpm "),
            PackageManager::Yarn => String::from_str("yarn "),
            PackageManager::Bun => String::from_str("bun run "),
        };
        out.append(script);
        out
    }

    /// The command that executes the given binary through the manager.
    pub fn exec_cmd(&self, command: &str) -> (r: String)
        ensures
            self == PackageManager::Npm ==> r@ == "npx "@ + command@,
            self == PackageManager::Pnpm ==> r@ == "pnpm exec "@ + command@,
            self == PackageManager::Yarn ==> r@ == "yarn "@ + command@,
            self == PackageManager::Bun ==> r@ == "bun "@ + command@,
    {
        let mut out = match self {
            PackageManager::Npm => String::from_str("npx "),
            PackageManager::Pnpm => String::from_str("pnpm exec "),
            PackageManager::Yarn => String::from_str("yarn "),
            PackageManager::Bun => String::from_str("bun "),
        };
        out.append(command);
        out
    }

    /// Run the detection cascade over the gathered signals.
    pub fn resolve(
        choice: Option<PackageManager>,
        lock_files: &Vec<String>,
        user_agent: Option<&String>,
        has_bun: bool,
        has_pnpm: bool,
        has_yarn: bool,
    ) -> (r: PackageManager)
        ensures
            r == resolve_spec(
                choice,
                str_views(lock_files@),
                opt_str_view(user_agent),
                has_bun,
                has_pnpm,
                has_yarn,
            ),
    {
        match choice {
            Option::Some(pm) => {
                return pm;
            },
            Option::None => {},
        }
        let ghost all = str_views(lock_files@);
        proof {
            assert(all.skip(0) =~= all);
        }
        let mut i: usize = 0;
        while i < lock_files.len()
            invariant
                choice is None,
                0 <= i <= lock_files.len(),
                all == str_views(lock_files@),
                all.len() == lock_files.len(),
                lock_file_choice(all) == lock_file_choice(all.skip(i as int)),
            decreases lock_files.len() - i,
        {
            proof {
                assert(all.skip(i as int)[0] == all[i as int]);
                assert(all.skip(i as int).skip(1) =~= all.skip(i + 1));
            }
            let f = lock_files[i].as_str();
            if str_eq(f, "bun.lockb") {
                return PackageManager::Bun;
            }
            if str_eq(f, "pnpm-lock.yaml") {
                return PackageManager::Pnpm;
            }
            if str_eq(f, "yarn.lock") {
                return PackageManager::Yarn;
            }
            if str_eq(f, "package-lock.json") {
                return PackageManager::Npm;
            }
            i += 1;
        }
        proof {
            assert(all.skip(lock_files@.len() as int) =~= Seq::<Seq<char>>::empty());
        }
        if let Some(agent) = user_agent {
            if str_contains(agent.as_str(), "bun") {
                return PackageManager::Bun;
            }
            if str_contains(agent.as_str(), "pnpm") {
                return PackageManager::Pnpm;
            }
            if str_contains(agent.as_str(), "yarn") {
                return PackageManager::Yarn;
            }
        }
        if has_bun {
            return PackageManager::Bun;
        }
        if has_pnpm {
            return PackageManager::Pnpm;
        }
        if has_yarn {
            return PackageManager::Yarn;
        }
        PackageManager::Npm
    }
}

} // verus!

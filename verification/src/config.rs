//! The configuration model: the single input to everything downstream.

use vstd::prelude::*;

verus! {

/// Which framework composer runs; exactly one is active per generation.
#[derive(Clone, Copy, Debug, PartialEq, Eq, Structural)]
pub enum Framework {
    NextJs,
    TanStackStart,
}

/// Database choice, orthogonal to the framework.
#[derive(Clone, Copy, Debug, PartialEq, Eq, Structural)]
pub enum Database {
    Convex,
    NeonDrizzle,
    NoDb,
}

/// Package manager used for the printed follow-up commands.
#[derive(Clone, Copy, Debug, PartialEq, Eq, Structural)]
pub enum PackageManager {
    Npm,
    Pnpm,
    Yarn,
    Bun,
}

/// A validated project configuration, immutable once built.
#[derive(Clone, Debug)]
pub struct ProjectConfig {
    pub name: String,
    pub framework: Framework,
    pub database: Database,
    pub use_clerk: bool,
    pub use_tailwind: bool,
    pub use_shadcn: bool,
    pub package_manager: PackageManager,
    pub init_git: bool,
}

/// Mathematical view of a configuration: the name as a character sequence,
/// every other field as itself.
pub ghost struct ConfigView {
    pub name: Seq<char>,
    pub framework: Framework,
    pub database: Database,
    pub use_clerk: bool,
    pub use_tailwind: bool,
    pub use_shadcn: bool,
    pub package_manager: PackageManager,
    pub init_git: bool,
}

impl View for ProjectConfig {
    type V = ConfigView;

    open spec fn view(&self) -> ConfigView {
        ConfigView {
            name: self.name@,
            framework: self.framework,
            database: self.database,
            use_clerk: self.use_clerk,
            use_tailwind: self.use_tailwind,
            use_shadcn: self.use_shadcn,
            package_manager: self.package_manager,
            init_git: self.init_git,
        }
    }
}

impl ProjectConfig {
    /// The configuration used when prompting is skipped: the chosen name and
    /// package manager, every optional feature off, git initialization on.
    pub fn default(name: String, package_manager: PackageManager) -> (c: Self)
        ensures
            c@.name == name@,
            c@.framework == Framework::NextJs,
            c@.database == Database::NoDb,
            !c@.use_clerk,
            !c@.use_tailwind,
            !c@.use_shadcn,
            c@.package_manager == package_manager,
            c@.init_git,
    {
        Self {
            name,
            framework: Framework::NextJs,
            database: Database::NoDb,
            use_clerk: false,
            use_tailwind: false,
            use_shadcn: false,
            package_manager,
            init_git: true,
        }
    }
}

impl ProjectConfig {
    /// Build a configuration from interactive selections: prompt indices
    /// map onto the closed variant sets, out-of-range indices onto the
    /// first entry.
    pub fn from_selections(
        name: String,
        package_manager: PackageManager,
        framework_index: usize,
        database_index: usize,
        use_clerk: bool,
        use_tailwind: bool,
        use_shadcn: bool,
        init_git: bool,
    ) -> (c: Self)
        ensures
            c@.name == name@,
            c@.framework == (if framework_index == 1 {
                Framework::TanStackStart
            } else {
                Framework::NextJs
            }),
            c@.database == (if database_index == 1 {
                Database::Convex
            } else if database_index == 2 {
                Database::NeonDrizzle
            } else {
                Database::NoDb
            }),
            c@.use_clerk == use_clerk,
            c@.use_tailwind == use_tailwind,
            c@.use_shadcn == use_shadcn,
            c@.package_manager == package_manager,
            c@.init_git == init_git,
    {
        let framework = match framework_index {
            1 => Framework::TanStackStart,
            _ => Framework::NextJs,
        };
        let database = match database_index {
            1 => Database::Convex,
            2 => Database::NeonDrizzle,
            _ => Database::NoDb,
        };
        Self {
            name,
            framework,
            database,
            use_clerk,
            use_tailwind,
            use_shadcn,
            package_manager,
            init_git,
        }
    }
}

impl Framework {
    /// Human-readable name of the framework.
    pub fn label(&self) -> (r: &'static str)
        ensures
            self == Framework::NextJs ==> r@ == "Next.js"@,
            self == Framework::TanStackStart ==> r@ == "TanStack Start"@,
    {
        match self {
            Framework::NextJs => "Next.js",
            Framework::TanStackStart => "TanStack Start",
        }
    }
}

impl Database {
    /// Human-readable name of the database choice.
    pub fn label(&self) -> (r: &'static str)
        ensures
            self == Database::Convex ==> r@ == "Convex"@,
            self == Database::NeonDrizzle ==> r@ == "Neon + Drizzle"@,
            self == Database::NoDb ==> r@ == "None"@,
    {
        match self {
            Database::Convex => "Convex",
            Database::NeonDrizzle => "Neon + Drizzle",
            Database::NoDb => "None",
        }
    }
}

impl PackageManager {
    /// Human-readable name of the package manager.
    pub fn label(&self) -> (r: &'static str)
        ensures
            self == PackageManager::Npm ==> r@ == "npm"@,
            self == PackageManager::Pnpm ==> r@ == "pnpm"@,
            self == PackageManager::Yarn ==> r@ == "yarn"@,
            self == PackageManager::Bun ==> r@ == "bun"@,
    {
        match self {
            PackageManager::Npm => "npm",
            PackageManager::Pnpm => "pnpm",
            PackageManager::Yarn => "yarn",
            PackageManager::Bun => "bun",
        }
    }
}

} // verus!

use vstd::prelude::*;

verus! {

/// Settings of the application around the library.
#[derive(Debug, Clone)]
pub struct AppConfig {
    pub name: String,
    pub debug_mode: bool,
    pub max_threads: u8,
}

/// The name of the default configuration.
pub open spec fn default_app_name() -> Seq<char> {
    seq!['D', 'e', 'f', 'a', 'u', 'l', 't', 'A', 'p', 'p']
}

impl AppConfig {
    /// Whether this is the default configuration.
    pub open spec fn is_default(&self) -> bool {
        &&& self.name@ == default_app_name()
        &&& !self.debug_mode
        &&& self.max_threads == 4
    }
}

impl Default for AppConfig {
    fn default() -> (r: AppConfig)
        ensures
            r.is_default(),
    {
        let text = "DefaultApp";
        proof {
            reveal_strlit("DefaultApp");
        }
        assert(text@ =~= default_app_name());
        let name = String::from_str(text);
        AppConfig { name, debug_mode: false, max_threads: 4 }
    }
}

/// The configuration an application starts with: the given one, or the
/// default when none is given.
pub fn effective_config(config: Option<AppConfig>) -> (r: AppConfig)
    ensures
        config matches Some(c) ==> r == c,
        config is None ==> r.is_default(),
{
    match config {
        Some(c) => c,
        None => AppConfig::default(),
    }
}

} // verus!

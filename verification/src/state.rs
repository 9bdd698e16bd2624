use vstd::prelude::*;

verus! {

/// The application configuration: a single text value, the application
/// name. It is fixed when the value is constructed; the field is private
/// and no method takes `&mut self`, so no caller can change it afterwards.
pub struct AppState {
    app_name: String,
}

/// The application name the service starts with when none is given.
pub open spec fn default_app_name() -> Seq<char> {
    "EvalRAG"@
}

impl AppState {
    /// The configured application name, as the contracts see it.
    pub closed spec fn app_name_spec(&self) -> Seq<char> {
        self.app_name@
    }

    /// Build a configuration with the given application name.
    pub fn new(app_name: String) -> (s: AppState)
        ensures
            s.app_name_spec() == app_name@,
    {
        AppState { app_name }
    }

    /// Read the configured application name.
    pub fn app_name(&self) -> (r: &String)
        ensures
            r@ == self.app_name_spec(),
    {
        &self.app_name
    }
}

impl Default for AppState {
    /// The configuration used when the service is started without one.
    fn default() -> (s: AppState)
        ensures
            s.app_name_spec() == default_app_name(),
    {
        AppState { app_name: "EvalRAG".to_owned() }
    }
}

} // verus!

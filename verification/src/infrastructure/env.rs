//! The settings that the program reads from the environment.

use vstd::prelude::*;

verus! {

/// The model of the prompt and the key that gives access to it.
pub struct AIModelEnv {
    api_key: String,
    model: String,
}

impl AIModelEnv {
    pub closed spec fn api_key_text(self) -> Seq<char> {
        self.api_key@
    }

    pub closed spec fn model_text(self) -> Seq<char> {
        self.model@
    }

    pub fn new(api_key: String, model: String) -> (env: AIModelEnv)
        ensures
            env.api_key_text() == api_key@,
            env.model_text() == model@,
    {
        AIModelEnv { api_key, model }
    }

    pub fn api_key(&self) -> (key: &str)
        ensures
            key@ == self.api_key_text(),
    {
        self.api_key.as_str()
    }

    pub fn model(&self) -> (model: &str)
        ensures
            model@ == self.model_text(),
    {
        self.model.as_str()
    }
}

} // verus!

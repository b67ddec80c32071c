//! A greeting, for trying out the bridge to the platform's own language.

use vstd::prelude::*;
use vstd::string::StringExecFns;

verus! {

/// Someone to greet.
pub struct Greeter {
    name: String,
}

impl View for Greeter {
    type V = Seq<char>;

    closed spec fn view(&self) -> Seq<char> {
        self.name@
    }
}

impl Greeter {
    pub fn new(name: &str) -> (greeter: Self)
        ensures
            greeter@ == name@,
    {
        Greeter { name: name.to_owned() }
    }

    /// The line to print.
    pub fn greeting(&self) -> (line: String)
        ensures
            line@ == "Hello from Rust, "@ + self@ + "!"@,
    {
        String::from_str("Hello from Rust, ").concat(self.name.as_str()).concat("!")
    }
}

} // verus!

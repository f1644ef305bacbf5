//! The methods that a request may use.

use vstd::prelude::*;
use vstd::string::*;

verus! {

/// A method that can be sent.
#[derive(Debug, Clone, Copy, PartialEq, Eq, Structural)]
pub enum Method {
    Get,
    Post,
    Put,
    Delete,
}

impl Method {
    /// The name of the method, in upper case.
    pub open spec fn name_text(self) -> Seq<char> {
        match self {
            Method::Get => "GET"@,
            Method::Post => "POST"@,
            Method::Put => "PUT"@,
            Method::Delete => "DELETE"@,
        }
    }

    /// The method that `name` names, if it names one: the name has to be
    /// in upper case.
    pub open spec fn named(name: Seq<char>) -> Option<Method> {
        if name == "GET"@ {
            Some(Method::Get)
        } else if name == "POST"@ {
            Some(Method::Post)
        } else if name == "PUT"@ {
            Some(Method::Put)
        } else if name == "DELETE"@ {
            Some(Method::Delete)
        } else {
            None
        }
    }

    /// The name of the method, in upper case.
    pub fn name(&self) -> (text: &'static str)
        ensures
            text@ == self.name_text(),
    {
        match self {
            Method::Get => "GET",
            Method::Post => "POST",
            Method::Put => "PUT",
            Method::Delete => "DELETE",
        }
    }

    /// Reads a method from its name in upper case. Any other text names
    /// no method.
    pub fn from_name(name: &str) -> (method: Option<Method>)
        ensures
            method == Method::named(name@),
    {
        let given = String::from_str(name);
        if given == String::from_str("GET") {
            Some(Method::Get)
        } else if given == String::from_str("POST") {
            Some(Method::Post)
        } else if given == String::from_str("PUT") {
            Some(Method::Put)
        } else if given == String::from_str("DELETE") {
            Some(Method::Delete)
        } else {
            None
        }
    }
}

/// The name of a method holds no slash, and two methods have two names.
pub proof fn lemma_method_names(a: Method, b: Method)
    ensures
        !a.name_text().contains('/'),
        a.name_text() == b.name_text() ==> a == b,
        Method::named(a.name_text()) == Some(a),
{
    reveal_strlit("GET");
    reveal_strlit("POST");
    reveal_strlit("PUT");
    reveal_strlit("DELETE");
    assert("POST"@.len() == 4);
    assert("PUT"@.len() == 3 && "PUT"@[0] == 'P');
    assert("DELETE"@.len() == 6);
}

} // verus!

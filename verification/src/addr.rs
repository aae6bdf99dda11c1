use vstd::prelude::*;
use vstd::std_specs::cmp::PartialEqSpecImpl;

verus! {

/// An identity: an address string that the host has accepted.
///
/// The library never judges an address string itself. A value of this type
/// stands for the host's acceptance, and `unchecked` is the one way to make
/// it.
#[derive(Debug, Eq)]
pub struct Addr {
    text: String,
}

impl View for Addr {
    type V = Seq<char>;

    closed spec fn view(&self) -> Seq<char> {
        self.text@
    }
}

impl Clone for Addr {
    fn clone(&self) -> (copy: Addr)
        ensures
            copy@ == self@,
    {
        Addr { text: self.text.clone() }
    }
}

impl PartialEq for Addr {
    fn eq(&self, other: &Addr) -> (equal: bool) {
        self.text == other.text
    }
}

impl PartialEqSpecImpl for Addr {
    open spec fn obeys_eq_spec() -> bool {
        true
    }

    open spec fn eq_spec(&self, other: &Addr) -> bool {
        self@ == other@
    }
}

impl Addr {
    /// Takes `input` for an identity without asking the host.
    pub fn unchecked(input: &str) -> (addr: Addr)
        ensures
            addr@ == input@,
    {
        Addr { text: input.to_owned() }
    }

    /// The address string.
    pub fn as_str(&self) -> (text: &str)
        ensures
            text@ == self@,
    {
        self.text.as_str()
    }

    /// The address string, owned.
    pub fn into_string(self) -> (text: String)
        ensures
            text@ == self@,
    {
        self.text
    }

}

} // verus!

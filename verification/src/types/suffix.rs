use vstd::prelude::*;

verus! {

/// A text written after an output item, kept as given.
#[derive(Clone, Debug)]
pub struct Suffix(String);

impl View for Suffix {
    type V = Seq<char>;

    closed spec fn view(&self) -> Seq<char> {
        self.0@
    }
}

impl Suffix {
    /// The UTF-8 bytes of the suffix's text.
    pub open spec fn spec_bytes(&self) -> Seq<u8> {
        vstd::utf8::encode_utf8(self@)
    }

    /// A suffix with the given text.
    pub fn new(text: &str) -> (suffix: Self)
        ensures
            suffix@ == text@,
    {
        Suffix(text.to_owned())
    }

    /// The suffix's text.
    pub fn as_str(&self) -> (text: &str)
        ensures
            text@ == self@,
    {
        self.0.as_str()
    }

    /// The suffix's text as UTF-8 bytes.
    pub fn as_bytes(&self) -> (bytes: &[u8])
        ensures
            bytes@ == self.spec_bytes(),
    {
        self.0.as_str().as_bytes()
    }
}

impl core::str::FromStr for Suffix {
    type Err = core::convert::Infallible;

    fn from_str(s: &str) -> (r: Result<Self, Self::Err>)
        ensures
            r matches Ok(suffix) && suffix@ == s@,
    {
        Ok(Suffix::new(s))
    }
}

} // verus!

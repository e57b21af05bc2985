use vstd::prelude::*;
use vstd::string::*;
use vstd::utf8::encode_utf8;

verus! {

/// The name of a pubsub topic, kept as the text the engine receives.
pub struct PubsubTopic(pub String);

impl View for PubsubTopic {
    type V = Seq<char>;

    open spec fn view(&self) -> Seq<char> {
        self.0@
    }
}

impl Clone for PubsubTopic {
    fn clone(&self) -> (r: PubsubTopic)
        ensures
            r@ == self@,
    {
        PubsubTopic(self.0.clone())
    }
}

impl PubsubTopic {
    /// The topic's text.
    pub fn as_str(&self) -> (r: &str)
        ensures
            r@ == self@,
    {
        self.0.as_str()
    }
}

impl From<String> for PubsubTopic {
    fn from(value: String) -> (r: PubsubTopic)
        ensures
            r@ == value@,
    {
        PubsubTopic(value)
    }
}

impl vstd::std_specs::convert::FromSpecImpl<String> for PubsubTopic {
    open spec fn obeys_from_spec() -> bool {
        true
    }

    open spec fn from_spec(v: String) -> PubsubTopic {
        PubsubTopic(v)
    }
}

impl<'a> From<&'a str> for PubsubTopic {
    fn from(value: &'a str) -> (r: PubsubTopic)
        ensures
            r@ == value@,
    {
        PubsubTopic(String::from_str(value))
    }
}

impl<'a> vstd::std_specs::convert::FromSpecImpl<&'a str> for PubsubTopic {
    open spec fn obeys_from_spec() -> bool {
        false
    }

    open spec fn from_spec(v: &'a str) -> PubsubTopic {
        arbitrary()
    }
}

/// The topic's UTF-8 bytes.
impl From<PubsubTopic> for Vec<u8> {
    fn from(value: PubsubTopic) -> (r: Vec<u8>)
        ensures
            r@ == encode_utf8(value@),
    {
        value.0.as_str().as_bytes_vec()
    }
}

impl vstd::std_specs::convert::FromSpecImpl<PubsubTopic> for Vec<u8> {
    open spec fn obeys_from_spec() -> bool {
        false
    }

    open spec fn from_spec(v: PubsubTopic) -> Vec<u8> {
        arbitrary()
    }
}

} // verus!

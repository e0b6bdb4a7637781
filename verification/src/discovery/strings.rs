use vstd::prelude::*;
use crate::validation::{finish, flag, reports, ValidationResult};

verus! {

/// Why a [`Topic`] is not valid.
#[derive(Copy, Clone, Debug, PartialEq, Eq, Structural)]
pub enum TopicInvalidity {
    Empty,
}

/// Why a [`Payload`] is not valid.
#[derive(Copy, Clone, Debug, PartialEq, Eq, Structural)]
pub enum PayloadInvalidity {
    Empty,
}

/// Why a [`crate::discovery::strings::Name`] is not valid.
#[derive(Copy, Clone, Debug, PartialEq, Eq, Structural)]
pub enum NameInvalidity {
    Empty,
}

/// Why a [`Template`] is not valid.
#[derive(Copy, Clone, Debug, PartialEq, Eq, Structural)]
pub enum TemplateInvalidity {
    Empty,
}

/// An MQTT topic.
#[derive(Clone, Debug)]
pub struct Topic(pub String);

/// An MQTT payload.
#[derive(Clone, Debug)]
pub struct Payload(pub String);

/// The name of an entity.
#[derive(Clone, Debug)]
pub struct Name(pub String);

/// A Home Assistant template.
#[derive(Clone, Debug)]
pub struct Template(pub String);

impl View for Topic {
    type V = Seq<char>;

    open spec fn view(&self) -> Seq<char> {
        self.0@
    }
}

impl View for Payload {
    type V = Seq<char>;

    open spec fn view(&self) -> Seq<char> {
        self.0@
    }
}

impl View for Name {
    type V = Seq<char>;

    open spec fn view(&self) -> Seq<char> {
        self.0@
    }
}

impl View for Template {
    type V = Seq<char>;

    open spec fn view(&self) -> Seq<char> {
        self.0@
    }
}

/// The invalidities of a topic: it must not be empty.
pub open spec fn topic_invalidities(t: Seq<char>) -> Seq<TopicInvalidity> {
    flag(t.len() == 0, TopicInvalidity::Empty)
}

/// The invalidities of a payload: it must not be empty.
pub open spec fn payload_invalidities(p: Seq<char>) -> Seq<PayloadInvalidity> {
    flag(p.len() == 0, PayloadInvalidity::Empty)
}

/// The invalidities of a name: it must not be empty.
pub open spec fn name_invalidities(n: Seq<char>) -> Seq<NameInvalidity> {
    flag(n.len() == 0, NameInvalidity::Empty)
}

/// The invalidities of a template: it must not be empty.
pub open spec fn template_invalidities(t: Seq<char>) -> Seq<TemplateInvalidity> {
    flag(t.len() == 0, TemplateInvalidity::Empty)
}

/// Whether a string has no characters.
pub fn str_is_empty(s: &str) -> (res: bool)
    ensures
        res == (s@.len() == 0),
{
    s.unicode_len() == 0
}

impl Topic {
    pub fn from_str(s: &str) -> (res: Topic)
        ensures
            res@ == s@,
    {
        Topic(s.to_owned())
    }

    pub fn as_str(&self) -> (res: &str)
        ensures
            res@ == self@,
    {
        self.0.as_str()
    }

    pub fn validate(&self) -> (res: ValidationResult<TopicInvalidity>)
        ensures
            reports(res, topic_invalidities(self@)),
    {
        let mut found: Vec<TopicInvalidity> = Vec::new();
        if str_is_empty(self.0.as_str()) {
            found.push(TopicInvalidity::Empty);
        }
        finish(found)
    }
}

impl Payload {
    pub fn from_str(s: &str) -> (res: Payload)
        ensures
            res@ == s@,
    {
        Payload(s.to_owned())
    }

    pub fn as_str(&self) -> (res: &str)
        ensures
            res@ == self@,
    {
        self.0.as_str()
    }

    pub fn validate(&self) -> (res: ValidationResult<PayloadInvalidity>)
        ensures
            reports(res, payload_invalidities(self@)),
    {
        let mut found: Vec<PayloadInvalidity> = Vec::new();
        if str_is_empty(self.0.as_str()) {
            found.push(PayloadInvalidity::Empty);
        }
        finish(found)
    }
}

impl Name {
    pub fn from_str(s: &str) -> (res: Name)
        ensures
            res@ == s@,
    {
        Name(s.to_owned())
    }

    pub fn as_str(&self) -> (res: &str)
        ensures
            res@ == self@,
    {
        self.0.as_str()
    }

    pub fn validate(&self) -> (res: ValidationResult<NameInvalidity>)
        ensures
            reports(res, name_invalidities(self@)),
    {
        let mut found: Vec<NameInvalidity> = Vec::new();
        if str_is_empty(self.0.as_str()) {
            found.push(NameInvalidity::Empty);
        }
        finish(found)
    }
}

impl Template {
    pub fn from_str(s: &str) -> (res: Template)
        ensures
            res@ == s@,
    {
        Template(s.to_owned())
    }

    pub fn as_str(&self) -> (res: &str)
        ensures
            res@ == self@,
    {
        self.0.as_str()
    }

    pub fn validate(&self) -> (res: ValidationResult<TemplateInvalidity>)
        ensures
            reports(res, template_invalidities(self@)),
    {
        let mut found: Vec<TemplateInvalidity> = Vec::new();
        if str_is_empty(self.0.as_str()) {
            found.push(TemplateInvalidity::Empty);
        }
        finish(found)
    }
}

} // verus!

verus! {

/// Whether two strings hold the same characters.
pub fn str_equal(a: &str, b: &str) -> (res: bool)
    ensures
        res == (a@ == b@),
{
    let n = a.unicode_len();
    if n != b.unicode_len() {
        return false;
    }
    let mut i: usize = 0;
    while i < n
        invariant
            n == a@.len(),
            n == b@.len(),
            i <= n,
            forall|j: int| 0 <= j < i ==> a@[j] == b@[j],
        decreases n - i,
    {
        if a.get_char(i) != b.get_char(i) {
            return false;
        }
        i = i + 1;
    }
    assert(a@ =~= b@);
    true
}

} // verus!

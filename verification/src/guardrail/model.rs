//! The conversational content that flows through the pipeline.
//!
//! [`Content`] is an immutable value: a role plus an ordered sequence of
//! [`Part`]s.  Every transformation produces a new `Content`; change detection
//! is by deep value comparison, never by reference identity.  Only the
//! [`Part::Text`] variant participates in validation and transformation;
//! other variants pass through untouched.

use vstd::prelude::*;

verus! {

/// One part of a piece of conversational content.
pub enum Part {
    /// Plain text; the only variant that guardrails inspect.
    Text { text: String },
    /// Opaque binary data (an image, audio, ...); passes through untouched.
    Data { mime_type: String, data: Vec<u8> },
}

/// Mathematical model of a [`Part`].
#[verifier::ext_equal]
pub enum PartV {
    Text { text: Seq<char> },
    Data { mime_type: Seq<char>, data: Seq<u8> },
}

impl View for Part {
    type V = PartV;

    open spec fn view(&self) -> PartV {
        match self {
            Part::Text { text } => PartV::Text { text: text@ },
            Part::Data { mime_type, data } => PartV::Data {
                mime_type: mime_type@,
                data: data@,
            },
        }
    }
}

/// A piece of conversational content: a role plus ordered parts.
pub struct Content {
    pub role: String,
    pub parts: Vec<Part>,
}

/// Mathematical model of a [`Content`] value.
#[verifier::ext_equal]
pub struct ContentV {
    pub role: Seq<char>,
    pub parts: Seq<PartV>,
}

impl View for Content {
    type V = ContentV;

    open spec fn view(&self) -> ContentV {
        ContentV { role: self.role@, parts: self.parts@.map_values(|p: Part| p@) }
    }
}

impl Part {
    /// The text of a [`Part::Text`], or `None` for any other variant.
    pub fn text(&self) -> (r: Option<&str>)
        ensures
            match self@ {
                PartV::Text { text } => r is Some && r->0@ == text,
                _ => r is None,
            },
    {
        match self {
            Part::Text { text } => Some(text.as_str()),
            _ => None,
        }
    }
}

impl Clone for Part {
    fn clone(&self) -> (r: Self)
        ensures
            r@ == self@,
    {
        match self {
            Part::Text { text } => Part::Text { text: text.clone() },
            Part::Data { mime_type, data } => Part::Data {
                mime_type: mime_type.clone(),
                data: clone_bytes(data),
            },
        }
    }
}

/// Byte-for-byte copy of a byte vector.
fn clone_bytes(data: &Vec<u8>) -> (r: Vec<u8>)
    ensures
        r@ == data@,
{
    let mut out: Vec<u8> = Vec::new();
    let mut i: usize = 0;
    while i < data.len()
        invariant
            i <= data.len(),
            out@ =~= data@.subrange(0, i as int),
        decreases data.len() - i,
    {
        out.push(data[i]);
        i = i + 1;
    }
    assert(out@ =~= data@);
    out
}

impl Content {
    /// A new content value with the given role and no parts.
    pub fn new(role: &str) -> (r: Content)
        ensures
            r@.role == role@,
            r@.parts == Seq::<PartV>::empty(),
    {
        let c = Content { role: role.to_owned(), parts: Vec::new() };
        proof {
            assert(c@.parts =~= Seq::<PartV>::empty());
        }
        c
    }

    /// This content with one more text part appended.
    pub fn with_text(self, text: &str) -> (r: Content)
        ensures
            r@.role == self@.role,
            r@.parts == self@.parts.push(PartV::Text { text: text@ }),
    {
        let mut parts = self.parts;
        parts.push(Part::Text { text: text.to_owned() });
        let c = Content { role: self.role, parts };
        proof {
            assert(c@.parts =~= self@.parts.push(PartV::Text { text: text@ }));
        }
        c
    }
}

impl Clone for Content {
    fn clone(&self) -> (r: Self)
        ensures
            r@ == self@,
    {
        let mut parts: Vec<Part> = Vec::new();
        let mut i: usize = 0;
        while i < self.parts.len()
            invariant
                i <= self.parts.len(),
                parts@.len() == i,
                forall|j: int| 0 <= j < i ==> parts@[j]@ == self.parts@[j]@,
            decreases self.parts.len() - i,
        {
            parts.push(self.parts[i].clone());
            i = i + 1;
        }
        let c = Content { role: self.role.clone(), parts };
        proof {
            assert forall|j: int| 0 <= j < self.parts@.len() implies c@.parts[j]
                == self@.parts[j] by {
            }
            assert(c@.parts =~= self@.parts);
            assert(c@ =~= self@);
        }
        c
    }
}

/// Whether two parts are equal as values.
pub fn part_eq(a: &Part, b: &Part) -> (r: bool)
    ensures
        r == (a@ == b@),
{
    match (a, b) {
        (Part::Text { text: ta }, Part::Text { text: tb }) => *ta == *tb,
        (
            Part::Data { mime_type: ma, data: da },
            Part::Data { mime_type: mb, data: db },
        ) => *ma == *mb && bytes_eq(da, db),
        (Part::Text { .. }, Part::Data { .. }) => false,
        (Part::Data { .. }, Part::Text { .. }) => false,
    }
}

/// Whether two byte vectors hold the same bytes.
fn bytes_eq(a: &Vec<u8>, b: &Vec<u8>) -> (r: bool)
    ensures
        r == (a@ == b@),
{
    if a.len() != b.len() {
        return false;
    }
    let mut i: usize = 0;
    while i < a.len()
        invariant
            i <= a.len(),
            a.len() == b.len(),
            forall|j: int| 0 <= j < i ==> a@[j] == b@[j],
        decreases a.len() - i,
    {
        if a[i] != b[i] {
            return false;
        }
        i = i + 1;
    }
    proof {
        assert(a@ =~= b@);
    }
    true
}

/// Deep value comparison of two content values, the pipeline's notion of
/// change detection.
pub fn content_eq(a: &Content, b: &Content) -> (r: bool)
    ensures
        r == (a@ == b@),
{
    if !(a.role == b.role) {
        return false;
    }
    if a.parts.len() != b.parts.len() {
        proof {
            assert(a@.parts.len() != b@.parts.len());
        }
        return false;
    }
    let mut i: usize = 0;
    while i < a.parts.len()
        invariant
            i <= a.parts.len(),
            a.parts.len() == b.parts.len(),
            a@.role == b@.role,
            forall|j: int| 0 <= j < i ==> a@.parts[j] == b@.parts[j],
        decreases a.parts.len() - i,
    {
        if !part_eq(&a.parts[i], &b.parts[i]) {
            proof {
                assert(a@.parts[i as int] != b@.parts[i as int]);
            }
            return false;
        }
        i = i + 1;
    }
    proof {
        assert(a@.parts =~= b@.parts);
        assert(a@ =~= b@);
    }
    true
}

} // verus!

//! PII detection and redaction guardrail.
//!
//! Each enabled PII type carries a detection pattern and a replacement
//! placeholder; redaction replaces every match of each enabled type, in the
//! order the types were enabled.

use vstd::prelude::*;
use vstd::string::StringExecFns;

use crate::guardrail::model::{Content, ContentV, Part, PartV};
use crate::guardrail::regex_ops::{
    regex_compile_ok, regex_compiles, regex_is_match, regex_match, regex_replace_all,
    regex_replaced,
};
use crate::guardrail::text::{join_strings, join_texts};
use crate::guardrail::traits::{Guardrail, GuardrailResult, GuardrailResultV};

verus! {

/// A category of personally identifiable information that can be detected
/// and redacted.
#[derive(Debug, Clone, Copy, PartialEq, Eq, Hash, Structural)]
pub enum PiiType {
    Email,
    Phone,
    Ssn,
    CreditCard,
    IpAddress,
}

/// The detection pattern for a PII type.
pub open spec fn spec_pii_pattern(t: PiiType) -> Seq<char> {
    match t {
        PiiType::Email => r"\b[A-Za-z0-9._%+-]+@[A-Za-z0-9.-]+\.[A-Z|a-z]{2,}\b"@,
        PiiType::Phone => r"\b(?:\+?1[-.\s]?)?\(?[0-9]{3}\)?[-.\s]?[0-9]{3}[-.\s]?[0-9]{4}\b"@,
        PiiType::Ssn => r"\b\d{3}[-\s]?\d{2}[-\s]?\d{4}\b"@,
        PiiType::CreditCard => r"\b(?:\d{4}[-\s]?){3}\d{4}\b"@,
        PiiType::IpAddress => r"\b(?:\d{1,3}\.){3}\d{1,3}\b"@,
    }
}

/// The replacement placeholder for a PII type.
pub open spec fn spec_pii_redaction(t: PiiType) -> Seq<char> {
    match t {
        PiiType::Email => "[EMAIL REDACTED]"@,
        PiiType::Phone => "[PHONE REDACTED]"@,
        PiiType::Ssn => "[SSN REDACTED]"@,
        PiiType::CreditCard => "[CREDIT CARD REDACTED]"@,
        PiiType::IpAddress => "[IP REDACTED]"@,
    }
}

/// The name of a PII type, as it appears in transform reasons.
pub open spec fn spec_pii_name(t: PiiType) -> Seq<char> {
    match t {
        PiiType::Email => "Email"@,
        PiiType::Phone => "Phone"@,
        PiiType::Ssn => "Ssn"@,
        PiiType::CreditCard => "CreditCard"@,
        PiiType::IpAddress => "IpAddress"@,
    }
}

impl PiiType {
    /// The regular expression that detects this PII type.
    pub fn pattern(&self) -> (r: &'static str)
        ensures
            r@ == spec_pii_pattern(*self),
    {
        match self {
            PiiType::Email => r"\b[A-Za-z0-9._%+-]+@[A-Za-z0-9.-]+\.[A-Z|a-z]{2,}\b",
            PiiType::Phone => r"\b(?:\+?1[-.\s]?)?\(?[0-9]{3}\)?[-.\s]?[0-9]{3}[-.\s]?[0-9]{4}\b",
            PiiType::Ssn => r"\b\d{3}[-\s]?\d{2}[-\s]?\d{4}\b",
            PiiType::CreditCard => r"\b(?:\d{4}[-\s]?){3}\d{4}\b",
            PiiType::IpAddress => r"\b(?:\d{1,3}\.){3}\d{1,3}\b",
        }
    }

    /// The placeholder that replaces matches of this PII type.
    pub fn redaction(&self) -> (r: &'static str)
        ensures
            r@ == spec_pii_redaction(*self),
    {
        match self {
            PiiType::Email => "[EMAIL REDACTED]",
            PiiType::Phone => "[PHONE REDACTED]",
            PiiType::Ssn => "[SSN REDACTED]",
            PiiType::CreditCard => "[CREDIT CARD REDACTED]",
            PiiType::IpAddress => "[IP REDACTED]",
        }
    }

    fn name_str(&self) -> (r: &'static str)
        ensures
            r@ == spec_pii_name(*self),
    {
        match self {
            PiiType::Email => "Email",
            PiiType::Phone => "Phone",
            PiiType::Ssn => "Ssn",
            PiiType::CreditCard => "CreditCard",
            PiiType::IpAddress => "IpAddress",
        }
    }
}

/// The types whose patterns compile, in order.
pub open spec fn spec_compiled_types(types: Seq<PiiType>) -> Seq<PiiType>
    decreases types.len(),
{
    if types.len() == 0 {
        Seq::empty()
    } else {
        let rest = spec_compiled_types(types.drop_last());
        if regex_compiles(spec_pii_pattern(types.last())) {
            rest.push(types.last())
        } else {
            rest
        }
    }
}

/// One redaction step: replace every match of `t`'s pattern in `text`, if it
/// matches at all.  Returns the new text and whether a replacement happened.
pub open spec fn spec_redact_step(t: PiiType, text: Seq<char>) -> (Seq<char>, bool) {
    let pat = spec_pii_pattern(t);
    if regex_compiles(pat) && regex_match(pat, text) {
        (regex_replaced(pat, text, spec_pii_redaction(t)), true)
    } else {
        (text, false)
    }
}

/// Redaction of `text` by the types in order: each type whose pattern matches
/// the current text replaces its matches and is recorded as found.
pub open spec fn spec_redact(types: Seq<PiiType>, text: Seq<char>) -> (Seq<char>, Seq<PiiType>)
    decreases types.len(),
{
    if types.len() == 0 {
        (text, Seq::empty())
    } else {
        let t = types[0];
        let (cur, hit) = spec_redact_step(t, text);
        let found: Seq<PiiType> = if hit {
            seq![t]
        } else {
            Seq::empty()
        };
        let (rest_text, rest_found) = spec_redact(types.drop_first(), cur);
        (rest_text, found + rest_found)
    }
}

/// Reason reported when content was transformed: the names of the redacted
/// types, comma-separated.
pub open spec fn redact_reason(found: Seq<PiiType>) -> Seq<char> {
    "Redacted PII types: "@ + join_texts(found.map_values(|t: PiiType| spec_pii_name(t)), ", "@)
}

fn make_redact_reason(found: &Vec<PiiType>) -> (r: String)
    ensures
        r@ == redact_reason(found@),
{
    let mut names: Vec<String> = Vec::new();
    let mut i: usize = 0;
    while i < found.len()
        invariant
            i <= found.len(),
            names@.len() == i,
            forall|j: int| 0 <= j < i ==> names@[j]@ == spec_pii_name(found@[j]),
        decreases found.len() - i,
    {
        names.push(found[i].name_str().to_owned());
        i = i + 1;
    }
    proof {
        assert forall|j: int| 0 <= j < found@.len() implies names.deep_view()[j]
            == found@.map_values(|t: PiiType| spec_pii_name(t))[j] by {}
        assert(names.deep_view() =~= found@.map_values(|t: PiiType| spec_pii_name(t)));
    }
    let mut s = "Redacted PII types: ".to_owned();
    s.append(join_strings(&names, ", ").as_str());
    proof {
        assert(s@ =~= redact_reason(found@));
    }
    s
}

/// The redaction outcome for a whole content value: each text part is
/// redacted (and replaced only where something was found); other parts pass
/// through untouched.  The second component lists every type found, part by
/// part.
pub open spec fn spec_redact_parts(types: Seq<PiiType>, parts: Seq<PartV>) -> (
    Seq<PartV>,
    Seq<PiiType>,
)
    decreases parts.len(),
{
    if parts.len() == 0 {
        (Seq::empty(), Seq::empty())
    } else {
        let (rest_parts, rest_found) = spec_redact_parts(types, parts.drop_last());
        match parts.last() {
            PartV::Text { text } => {
                let (new_text, found) = spec_redact(types, text);
                if found.len() > 0 {
                    (rest_parts.push(PartV::Text { text: new_text }), rest_found + found)
                } else {
                    (rest_parts.push(parts.last()), rest_found)
                }
            },
            p => (rest_parts.push(p), rest_found),
        }
    }
}

/// The verdict of a PII redactor with the given enabled types: a transform
/// carrying the redacted content where anything was found, a pass otherwise.
pub open spec fn spec_pii_verdict(types: Seq<PiiType>, content: ContentV) -> GuardrailResultV {
    let (new_parts, found) = spec_redact_parts(types, content.parts);
    if found.len() > 0 {
        GuardrailResultV::Transform {
            new_content: ContentV { role: content.role, parts: new_parts },
            reason: redact_reason(found),
        }
    } else {
        GuardrailResultV::Pass
    }
}

/// PII detection and redaction guardrail.
///
/// Runs sequentially (it transforms content) and fail-fast; failing is not in
/// its vocabulary, so the fail-fast flag never takes effect.
pub struct PiiRedactor {
    types: Vec<PiiType>,
}

impl PiiRedactor {
    /// The enabled types, in order.
    pub closed spec fn spec_types(&self) -> Seq<PiiType> {
        self.types@
    }

    /// A redactor for emails, phone numbers, SSNs and credit-card numbers.
    pub fn new() -> (r: Self)
        ensures
            r.spec_name() == "pii_redactor"@,
            r.spec_types() == spec_compiled_types(
                seq![PiiType::Email, PiiType::Phone, PiiType::Ssn, PiiType::CreditCard],
            ),
            forall|c: ContentV| #[trigger] r.spec_validate(c) == spec_pii_verdict(
                spec_compiled_types(
                    seq![PiiType::Email, PiiType::Phone, PiiType::Ssn, PiiType::CreditCard],
                ),
                c,
            ),
            r.spec_run_parallel() == false,
            r.spec_fail_fast() == true,
    {
        let types = [PiiType::Email, PiiType::Phone, PiiType::Ssn, PiiType::CreditCard];
        proof {
            assert(types@ =~= seq![
                PiiType::Email,
                PiiType::Phone,
                PiiType::Ssn,
                PiiType::CreditCard,
            ]);
        }
        Self::with_types(&types)
    }

    /// A redactor for the given types; a type whose pattern does not compile
    /// is dropped.
    pub fn with_types(types: &[PiiType]) -> (r: Self)
        ensures
            r.spec_name() == "pii_redactor"@,
            r.spec_types() == spec_compiled_types(types@),
            forall|c: ContentV| #[trigger] r.spec_validate(c) == spec_pii_verdict(
                spec_compiled_types(types@),
                c,
            ),
            r.spec_run_parallel() == false,
            r.spec_fail_fast() == true,
    {
        let mut kept: Vec<PiiType> = Vec::new();
        let mut i: usize = 0;
        while i < types.len()
            invariant
                i <= types.len(),
                kept@ == spec_compiled_types(types@.take(i as int)),
            decreases types.len() - i,
        {
            proof {
                assert(types@.take(i + 1).drop_last() =~= types@.take(i as int));
                assert(types@.take(i + 1).last() == types@[i as int]);
            }
            let t = types[i];
            if regex_compile_ok(t.pattern()) {
                kept.push(t);
            }
            proof {
                assert(kept@ =~= spec_compiled_types(types@.take(i + 1)));
            }
            i = i + 1;
        }
        proof {
            assert(types@.take(types@.len() as int) =~= types@);
        }
        PiiRedactor { types: kept }
    }

    /// Redact PII from `text`: the redacted text together with the types
    /// found, in the order the types are enabled.
    pub fn redact(&self, text: &str) -> (r: (String, Vec<PiiType>))
        ensures
            r.0@ == spec_redact(self.spec_types(), text@).0,
            r.1@ == spec_redact(self.spec_types(), text@).1,
    {
        let ghost all = self.types@;
        let mut result: String = text.to_owned();
        let mut found: Vec<PiiType> = Vec::new();
        let mut i: usize = 0;
        proof {
            assert(all.skip(0) =~= all);
            assert(found@ + spec_redact(all, text@).1 =~= spec_redact(all, text@).1);
        }
        while i < self.types.len()
            invariant
                i <= self.types.len(),
                all == self.types@,
                spec_redact(all, text@).0 == spec_redact(all.skip(i as int), result@).0,
                spec_redact(all, text@).1 =~= found@ + spec_redact(
                    all.skip(i as int),
                    result@,
                ).1,
            decreases self.types.len() - i,
        {
            let ghost rest = all.skip(i as int);
            proof {
                assert(rest.len() > 0);
                assert(rest[0] == all[i as int]);
                assert(rest.drop_first() =~= all.skip(i + 1));
            }
            let t = self.types[i];
            let pattern = t.pattern();
            match regex_is_match(pattern, result.as_str()) {
                Some(true) => {
                    match regex_replace_all(pattern, result.as_str(), t.redaction()) {
                        Some(new_text) => {
                            result = new_text;
                            found.push(t);
                        },
                        None => {
                            // Unreachable: the pattern compiled a moment ago.
                            proof {
                                assert(false);
                            }
                        },
                    }
                },
                _ => {},
            }
            i = i + 1;
        }
        proof {
            assert(all.skip(all.len() as int) =~= Seq::<PiiType>::empty());
            assert(spec_redact(all, text@).1 =~= found@);
        }
        (result, found)
    }
}

impl Default for PiiRedactor {
    /// The same redactor as [`PiiRedactor::new`].
    fn default() -> (r: Self)
        ensures
            r.spec_name() == "pii_redactor"@,
            r.spec_types() == spec_compiled_types(
                seq![PiiType::Email, PiiType::Phone, PiiType::Ssn, PiiType::CreditCard],
            ),
            forall|c: ContentV| #[trigger] r.spec_validate(c) == spec_pii_verdict(
                spec_compiled_types(
                    seq![PiiType::Email, PiiType::Phone, PiiType::Ssn, PiiType::CreditCard],
                ),
                c,
            ),
            r.spec_run_parallel() == false,
            r.spec_fail_fast() == true,
    {
        Self::new()
    }
}

impl Guardrail for PiiRedactor {
    closed spec fn spec_name(&self) -> Seq<char> {
        "pii_redactor"@
    }

    closed spec fn spec_validate(&self, content: ContentV) -> GuardrailResultV {
        spec_pii_verdict(self.types@, content)
    }

    closed spec fn spec_run_parallel(&self) -> bool {
        false
    }

    closed spec fn spec_fail_fast(&self) -> bool {
        true
    }

    fn name(&self) -> (r: &str) {
        "pii_redactor"
    }

    fn validate(&self, content: &Content) -> (r: GuardrailResult) {
        let mut new_parts: Vec<Part> = Vec::new();
        let mut redacted_types: Vec<PiiType> = Vec::new();
        let mut i: usize = 0;
        while i < content.parts.len()
            invariant
                i <= content.parts.len(),
                new_parts@.map_values(|p: Part| p@) =~= spec_redact_parts(
                    self.types@,
                    content@.parts.take(i as int),
                ).0,
                redacted_types@ =~= spec_redact_parts(
                    self.types@,
                    content@.parts.take(i as int),
                ).1,
            decreases content.parts.len() - i,
        {
            proof {
                assert(content@.parts.take(i + 1).drop_last() =~= content@.parts.take(i as int));
                assert(content@.parts.take(i + 1).last() == content@.parts[i as int]);
            }
            let part = &content.parts[i];
            match part.text() {
                Some(t) => {
                    let (redacted, found) = self.redact(t);
                    if found.len() > 0 {
                        new_parts.push(Part::Text { text: redacted });
                        let mut j: usize = 0;
                        let ghost old_types = redacted_types@;
                        while j < found.len()
                            invariant
                                j <= found.len(),
                                redacted_types@ =~= old_types + found@.take(j as int),
                            decreases found.len() - j,
                        {
                            redacted_types.push(found[j]);
                            proof {
                                assert(old_types + found@.take(j + 1) =~= (old_types
                                    + found@.take(j as int)).push(found@[j as int]));
                            }
                            j = j + 1;
                        }
                        proof {
                            assert(found@.take(found@.len() as int) =~= found@);
                        }
                    } else {
                        new_parts.push(part.clone());
                    }
                },
                None => {
                    new_parts.push(part.clone());
                },
            }
            proof {
                assert(new_parts@.map_values(|p: Part| p@) =~= spec_redact_parts(
                    self.types@,
                    content@.parts.take(i + 1),
                ).0);
                assert(redacted_types@ =~= spec_redact_parts(
                    self.types@,
                    content@.parts.take(i + 1),
                ).1);
            }
            i = i + 1;
        }
        proof {
            assert(content@.parts.take(content.parts@.len() as int) =~= content@.parts);
        }
        if redacted_types.len() > 0 {
            let new_content = Content { role: content.role.clone(), parts: new_parts };
            let reason = make_redact_reason(&redacted_types);
            let r = GuardrailResult::Transform { new_content, reason };
            proof {
                assert(redacted_types@ == spec_redact_parts(self.types@, content@.parts).1);
                assert(r@ =~~= spec_pii_verdict(self.types@, content@));
            }
            r
        } else {
            GuardrailResult::Pass
        }
    }

    fn run_parallel(&self) -> (r: bool) {
        false
    }

    fn fail_fast(&self) -> (r: bool) {
        true
    }
}

} // verus!

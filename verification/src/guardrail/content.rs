//! Content filter guardrail: blocks harmful or off-topic content and
//! enforces length limits.

use vstd::prelude::*;
use vstd::string::{StringExecFns, StringSliceAdditionalSpecFns};
use vstd::utf8::encode_utf8;

use crate::guardrail::model::{Content, ContentV, PartV};
use crate::guardrail::regex_ops::{
    escape_word_pattern, escaped_word_pattern, regex_set_compiles, regex_set_count,
    regex_set_match_count,
};
use crate::strings::{contains_sub, lower_of, lowercase, str_contains};
use crate::guardrail::text::{dec_str, join_strings, join_texts, usize_to_string};
use crate::guardrail::traits::{Guardrail, GuardrailResult, GuardrailResultV, Severity};

verus! {

/// Configuration for content filtering.
pub struct ContentFilterConfig {
    /// Blocked keywords (matched case-insensitively, on word boundaries).
    pub blocked_keywords: Vec<String>,
    /// Required topic keywords (at least one must be present).
    pub required_topics: Vec<String>,
    /// Maximum length in bytes.
    pub max_length: Option<usize>,
    /// Minimum length in bytes.
    pub min_length: Option<usize>,
    /// Severity reported for failures.
    pub severity: Severity,
}

/// Mathematical model of a [`ContentFilterConfig`].
#[verifier::ext_equal]
pub struct ContentFilterConfigV {
    pub blocked_keywords: Seq<Seq<char>>,
    pub required_topics: Seq<Seq<char>>,
    pub max_length: Option<int>,
    pub min_length: Option<int>,
    pub severity: Severity,
}

impl View for ContentFilterConfig {
    type V = ContentFilterConfigV;

    open spec fn view(&self) -> ContentFilterConfigV {
        ContentFilterConfigV {
            blocked_keywords: self.blocked_keywords.deep_view(),
            required_topics: self.required_topics.deep_view(),
            max_length: match self.max_length {
                Some(m) => Some(m as int),
                None => None,
            },
            min_length: match self.min_length {
                Some(m) => Some(m as int),
                None => None,
            },
            severity: self.severity,
        }
    }
}

impl Default for ContentFilterConfig {
    /// No keywords, no topics, no length limits, `High` severity.
    fn default() -> (r: Self)
        ensures
            r@ == (ContentFilterConfigV {
                blocked_keywords: Seq::empty(),
                required_topics: Seq::empty(),
                max_length: None,
                min_length: None,
                severity: Severity::High,
            }),
    {
        let r = ContentFilterConfig {
            blocked_keywords: Vec::new(),
            required_topics: Vec::new(),
            max_length: None,
            min_length: None,
            severity: Severity::High,
        };
        proof {
            assert(r@ =~= ContentFilterConfigV {
                blocked_keywords: Seq::empty(),
                required_topics: Seq::empty(),
                max_length: None,
                min_length: None,
                severity: Severity::High,
            });
        }
        r
    }
}

/// The text parts of the content, in order.
pub open spec fn spec_texts(parts: Seq<PartV>) -> Seq<Seq<char>>
    decreases parts.len(),
{
    if parts.len() == 0 {
        Seq::empty()
    } else {
        let rest = spec_texts(parts.drop_last());
        match parts.last() {
            PartV::Text { text } => rest.push(text),
            _ => rest,
        }
    }
}

/// All text parts of the content joined with single spaces.
pub open spec fn spec_extract_text(parts: Seq<PartV>) -> Seq<char> {
    join_texts(spec_texts(parts), " "@)
}

/// All text parts of `content` joined with single spaces.
pub fn extract_text(content: &Content) -> (r: String)
    ensures
        r@ == spec_extract_text(content@.parts),
{
    let mut texts: Vec<String> = Vec::new();
    let mut i: usize = 0;
    while i < content.parts.len()
        invariant
            i <= content.parts.len(),
            texts.deep_view() == spec_texts(content@.parts.take(i as int)),
        decreases content.parts.len() - i,
    {
        proof {
            assert(content@.parts.take(i + 1).drop_last() =~= content@.parts.take(i as int));
            assert(content@.parts.take(i + 1).last() == content@.parts[i as int]);
        }
        match content.parts[i].text() {
            Some(t) => {
                texts.push(t.to_owned());
                proof {
                    assert(texts.deep_view() =~= spec_texts(content@.parts.take(i + 1)));
                }
            },
            None => {
                proof {
                    assert(texts.deep_view() =~= spec_texts(content@.parts.take(i + 1)));
                }
            },
        }
        i = i + 1;
    }
    proof {
        assert(content@.parts.take(content.parts@.len() as int) =~= content@.parts);
    }
    join_strings(&texts, " ")
}

/// Reason reported when blocked keywords match.
pub open spec fn blocked_reason(count: int) -> Seq<char> {
    "Content contains blocked keywords (matched "@ + dec_str(count as nat) + " patterns)"@
}

fn make_blocked_reason(count: usize) -> (r: String)
    ensures
        r@ == blocked_reason(count as int),
{
    let mut s = "Content contains blocked keywords (matched ".to_owned();
    s.append(usize_to_string(count).as_str());
    s.append(" patterns)");
    proof {
        assert(s@ =~= blocked_reason(count as int));
    }
    s
}

/// A text fragment wrapped in double quotes.
pub open spec fn quoted(t: Seq<char>) -> Seq<char> {
    seq!['"'] + t + seq!['"']
}

/// Reason reported when none of the required topics is present; lists the
/// expected topics in quotes.
pub open spec fn off_topic_reason(topics: Seq<Seq<char>>) -> Seq<char> {
    "Content is off-topic. Expected topics: ["@ + join_texts(
        topics.map_values(|t: Seq<char>| quoted(t)),
        ", "@,
    ) + "]"@
}

fn make_off_topic_reason(topics: &Vec<String>) -> (r: String)
    ensures
        r@ == off_topic_reason(topics.deep_view()),
{
    let mut quoted_topics: Vec<String> = Vec::new();
    let mut i: usize = 0;
    while i < topics.len()
        invariant
            i <= topics.len(),
            quoted_topics@.len() == i,
            forall|j: int| 0 <= j < i ==> quoted_topics@[j]@ == quoted(topics@[j]@),
        decreases topics.len() - i,
    {
        let mut q = "\"".to_owned();
        q.append(topics[i].as_str());
        q.append("\"");
        proof {
            reveal_strlit("\"");
            assert("\""@ =~= seq!['"']);
            assert(q@ =~= quoted(topics@[i as int]@));
        }
        quoted_topics.push(q);
        i = i + 1;
    }
    proof {
        assert forall|j: int| 0 <= j < topics@.len() implies quoted_topics.deep_view()[j]
            == topics.deep_view().map_values(|t: Seq<char>| quoted(t))[j] by {}
        assert(quoted_topics.deep_view() =~= topics.deep_view().map_values(
            |t: Seq<char>| quoted(t),
        ));
    }
    let mut s = "Content is off-topic. Expected topics: [".to_owned();
    s.append(join_strings(&quoted_topics, ", ").as_str());
    s.append("]");
    proof {
        assert(s@ =~= off_topic_reason(topics.deep_view()));
    }
    s
}

/// Reason reported when the content exceeds the maximum length.
pub open spec fn over_length_reason(len: int, max: int) -> Seq<char> {
    "Content exceeds maximum length ("@ + dec_str(len as nat) + " > "@ + dec_str(max as nat)
        + ")"@
}

fn make_over_length_reason(len: usize, max: usize) -> (r: String)
    ensures
        r@ == over_length_reason(len as int, max as int),
{
    let mut s = "Content exceeds maximum length (".to_owned();
    s.append(usize_to_string(len).as_str());
    s.append(" > ");
    s.append(usize_to_string(max).as_str());
    s.append(")");
    proof {
        assert(s@ =~= over_length_reason(len as int, max as int));
    }
    s
}

/// Reason reported when the content falls below the minimum length.
pub open spec fn under_length_reason(len: int, min: int) -> Seq<char> {
    "Content below minimum length ("@ + dec_str(len as nat) + " < "@ + dec_str(min as nat) + ")"@
}

fn make_under_length_reason(len: usize, min: usize) -> (r: String)
    ensures
        r@ == under_length_reason(len as int, min as int),
{
    let mut s = "Content below minimum length (".to_owned();
    s.append(usize_to_string(len).as_str());
    s.append(" < ");
    s.append(usize_to_string(min).as_str());
    s.append(")");
    proof {
        assert(s@ =~= under_length_reason(len as int, min as int));
    }
    s
}

/// Whether at least one required topic occurs (case-insensitively) in the
/// text.
pub open spec fn spec_has_topic(topics: Seq<Seq<char>>, text: Seq<char>) -> bool {
    exists|i: int|
        0 <= i < topics.len() && #[trigger] contains_sub(lower_of(text), lower_of(topics[i]))
}

/// The word-boundary patterns for the blocked keywords.
pub open spec fn spec_keyword_patterns(keywords: Seq<Seq<char>>) -> Seq<Seq<char>> {
    keywords.map_values(|k: Seq<char>| escaped_word_pattern(k))
}

/// The verdict of a content filter with configuration `cfg` on `content`.
///
/// The checks run in order — blocked keywords, required topics, maximum
/// length, minimum length — and the first violated check decides the verdict;
/// content violating none of them passes.  Lengths are byte lengths of the
/// extracted text.
pub open spec fn spec_filter_verdict(cfg: ContentFilterConfigV, content: ContentV)
    -> GuardrailResultV {
    let text = spec_extract_text(content.parts);
    let patterns = spec_keyword_patterns(cfg.blocked_keywords);
    let byte_len = encode_utf8(text).len() as int;
    if cfg.blocked_keywords.len() > 0 && regex_set_compiles(patterns) && regex_set_match_count(
        patterns,
        text,
    ) > 0 {
        GuardrailResultV::Fail {
            reason: blocked_reason(regex_set_match_count(patterns, text)),
            severity: cfg.severity,
        }
    } else if cfg.required_topics.len() > 0 && !spec_has_topic(cfg.required_topics, text) {
        GuardrailResultV::Fail {
            reason: off_topic_reason(cfg.required_topics),
            severity: cfg.severity,
        }
    } else if cfg.max_length is Some && byte_len > cfg.max_length->0 {
        GuardrailResultV::Fail {
            reason: over_length_reason(byte_len, cfg.max_length->0),
            severity: cfg.severity,
        }
    } else if cfg.min_length is Some && byte_len < cfg.min_length->0 {
        GuardrailResultV::Fail {
            reason: under_length_reason(byte_len, cfg.min_length->0),
            severity: cfg.severity,
        }
    } else {
        GuardrailResultV::Pass
    }
}

/// Content filter guardrail for blocking harmful or off-topic content.
pub struct ContentFilter {
    name: String,
    config: ContentFilterConfig,
}

impl ContentFilter {
    /// A new content filter with the given name and configuration.
    pub fn new(name: &str, config: ContentFilterConfig) -> (r: Self)
        ensures
            r.spec_name() == name@,
            forall|c: ContentV| #[trigger] r.spec_validate(c) == spec_filter_verdict(config@, c),
            r.spec_run_parallel() == true,
            r.spec_fail_fast() == true,
    {
        ContentFilter { name: name.to_owned(), config }
    }

    /// A filter named `harmful_content` that blocks common harmful content
    /// patterns at `Critical` severity.
    pub fn harmful_content() -> (r: Self)
        ensures
            r.spec_name() == "harmful_content"@,
            forall|c: ContentV| #[trigger] r.spec_validate(c) == spec_filter_verdict(
                ContentFilterConfigV {
                    blocked_keywords: seq![
                        "kill"@,
                        "murder"@,
                        "bomb"@,
                        "terrorist"@,
                        "hack"@,
                        "exploit"@,
                        "malware"@,
                        "ransomware"@,
                    ],
                    required_topics: Seq::empty(),
                    max_length: None,
                    min_length: None,
                    severity: Severity::Critical,
                },
                c,
            ),
            r.spec_run_parallel() == true,
            r.spec_fail_fast() == true,
    {
        let keywords: Vec<String> = vec![
            "kill".to_owned(),
            "murder".to_owned(),
            "bomb".to_owned(),
            "terrorist".to_owned(),
            "hack".to_owned(),
            "exploit".to_owned(),
            "malware".to_owned(),
            "ransomware".to_owned(),
        ];
        let config = ContentFilterConfig {
            blocked_keywords: keywords,
            required_topics: Vec::new(),
            max_length: None,
            min_length: None,
            severity: Severity::Critical,
        };
        proof {
            assert(config@ =~= ContentFilterConfigV {
                blocked_keywords: seq![
                    "kill"@,
                    "murder"@,
                    "bomb"@,
                    "terrorist"@,
                    "hack"@,
                    "exploit"@,
                    "malware"@,
                    "ransomware"@,
                ],
                required_topics: Seq::empty(),
                max_length: None,
                min_length: None,
                severity: Severity::Critical,
            });
        }
        Self::new("harmful_content", config)
    }

    /// A filter named `on_topic_<topic>` that requires at least one of the
    /// given keywords, at `Medium` severity.
    pub fn on_topic(topic: &str, keywords: Vec<String>) -> (r: Self)
        ensures
            r.spec_name() == "on_topic_"@ + topic@,
            forall|c: ContentV| #[trigger] r.spec_validate(c) == spec_filter_verdict(
                ContentFilterConfigV {
                    blocked_keywords: Seq::empty(),
                    required_topics: keywords.deep_view(),
                    max_length: None,
                    min_length: None,
                    severity: Severity::Medium,
                },
                c,
            ),
            r.spec_run_parallel() == true,
            r.spec_fail_fast() == true,
    {
        let mut name = "on_topic_".to_owned();
        name.append(topic);
        let config = ContentFilterConfig {
            blocked_keywords: Vec::new(),
            required_topics: keywords,
            max_length: None,
            min_length: None,
            severity: Severity::Medium,
        };
        proof {
            assert(config@ =~= ContentFilterConfigV {
                blocked_keywords: Seq::empty(),
                required_topics: config.required_topics.deep_view(),
                max_length: None,
                min_length: None,
                severity: Severity::Medium,
            });
        }
        Self::new(name.as_str(), config)
    }

    /// A filter named `max_length` that enforces a maximum byte length, at
    /// `Medium` severity.
    pub fn max_length(max: usize) -> (r: Self)
        ensures
            r.spec_name() == "max_length"@,
            forall|c: ContentV| #[trigger] r.spec_validate(c) == spec_filter_verdict(
                ContentFilterConfigV {
                    blocked_keywords: Seq::empty(),
                    required_topics: Seq::empty(),
                    max_length: Some(max as int),
                    min_length: None,
                    severity: Severity::Medium,
                },
                c,
            ),
            r.spec_run_parallel() == true,
            r.spec_fail_fast() == true,
    {
        let config = ContentFilterConfig {
            blocked_keywords: Vec::new(),
            required_topics: Vec::new(),
            max_length: Some(max),
            min_length: None,
            severity: Severity::Medium,
        };
        proof {
            assert(config@ =~= ContentFilterConfigV {
                blocked_keywords: Seq::empty(),
                required_topics: Seq::empty(),
                max_length: Some(max as int),
                min_length: None,
                severity: Severity::Medium,
            });
        }
        Self::new("max_length", config)
    }

    /// A filter named `blocked_keywords` that blocks the given keywords at
    /// `High` severity.
    pub fn blocked_keywords(keywords: Vec<String>) -> (r: Self)
        ensures
            r.spec_name() == "blocked_keywords"@,
            forall|c: ContentV| #[trigger] r.spec_validate(c) == spec_filter_verdict(
                ContentFilterConfigV {
                    blocked_keywords: keywords.deep_view(),
                    required_topics: Seq::empty(),
                    max_length: None,
                    min_length: None,
                    severity: Severity::High,
                },
                c,
            ),
            r.spec_run_parallel() == true,
            r.spec_fail_fast() == true,
    {
        let config = ContentFilterConfig {
            blocked_keywords: keywords,
            required_topics: Vec::new(),
            max_length: None,
            min_length: None,
            severity: Severity::High,
        };
        proof {
            assert(config@ =~= ContentFilterConfigV {
                blocked_keywords: config.blocked_keywords.deep_view(),
                required_topics: Seq::empty(),
                max_length: None,
                min_length: None,
                severity: Severity::High,
            });
        }
        Self::new("blocked_keywords", config)
    }
}

impl Guardrail for ContentFilter {
    closed spec fn spec_name(&self) -> Seq<char> {
        self.name@
    }

    closed spec fn spec_validate(&self, content: ContentV) -> GuardrailResultV {
        spec_filter_verdict(self.config@, content)
    }

    closed spec fn spec_run_parallel(&self) -> bool {
        true
    }

    closed spec fn spec_fail_fast(&self) -> bool {
        true
    }

    fn name(&self) -> (r: &str) {
        self.name.as_str()
    }

    fn validate(&self, content: &Content) -> (r: GuardrailResult) {
        let text = extract_text(content);

        // Blocked keywords, matched case-insensitively on word boundaries.
        if self.config.blocked_keywords.len() > 0 {
            let mut patterns: Vec<String> = Vec::new();
            let mut i: usize = 0;
            while i < self.config.blocked_keywords.len()
                invariant
                    i <= self.config.blocked_keywords.len(),
                    patterns@.len() == i,
                    forall|j: int| 0 <= j < i ==> patterns@[j]@ == escaped_word_pattern(
                        self.config.blocked_keywords@[j]@,
                    ),
                decreases self.config.blocked_keywords.len() - i,
            {
                patterns.push(escape_word_pattern(self.config.blocked_keywords[i].as_str()));
                i = i + 1;
            }
            proof {
                assert forall|j: int| 0 <= j < patterns@.len() implies patterns.deep_view()[j]
                    == spec_keyword_patterns(self.config.blocked_keywords.deep_view())[j] by {}
                assert(patterns.deep_view() =~= spec_keyword_patterns(
                    self.config.blocked_keywords.deep_view(),
                ));
            }
            match regex_set_count(&patterns, text.as_str()) {
                Some(count) => {
                    if count > 0 {
                        return GuardrailResult::Fail {
                            reason: make_blocked_reason(count),
                            severity: self.config.severity,
                        };
                    }
                },
                None => {},
            }
        }

        // Required topics, matched case-insensitively as substrings.
        if self.config.required_topics.len() > 0 {
            let ghost text_v = spec_extract_text(content@.parts);
            let ghost tdv = self.config.required_topics.deep_view();
            let text_lower = lowercase(text.as_str());
            let mut has_topic = false;
            let mut i: usize = 0;
            while i < self.config.required_topics.len()
                invariant
                    i <= self.config.required_topics.len(),
                    tdv == self.config.required_topics.deep_view(),
                    has_topic ==> spec_has_topic(tdv, text_v),
                    !has_topic ==> forall|j: int|
                        0 <= j < i ==> !#[trigger] contains_sub(
                            lower_of(text_v),
                            lower_of(tdv[j]),
                        ),
                    text_lower@ == lower_of(text_v),
                decreases self.config.required_topics.len() - i,
            {
                let topic_lower = lowercase(self.config.required_topics[i].as_str());
                let found = str_contains(text_lower.as_str(), topic_lower.as_str());
                proof {
                    assert(tdv[i as int] == self.config.required_topics@[i as int]@);
                    assert(found == contains_sub(lower_of(text_v), lower_of(tdv[i as int])));
                }
                if found {
                    has_topic = true;
                }
                i = i + 1;
            }
            proof {
                if !has_topic {
                    assert forall|j: int| 0 <= j < tdv.len() implies !contains_sub(
                        lower_of(text_v),
                        lower_of(tdv[j]),
                    ) by {}
                    assert(!spec_has_topic(tdv, text_v));
                }
            }
            if !has_topic {
                return GuardrailResult::Fail {
                    reason: make_off_topic_reason(&self.config.required_topics),
                    severity: self.config.severity,
                };
            }
        }

        // Length limits, in bytes of the extracted text.
        let byte_len = text.as_str().as_bytes().len();
        proof {
            assert(byte_len as int == encode_utf8(spec_extract_text(content@.parts)).len() as int);
        }
        match self.config.max_length {
            Some(max) => {
                if byte_len > max {
                    return GuardrailResult::Fail {
                        reason: make_over_length_reason(byte_len, max),
                        severity: self.config.severity,
                    };
                }
            },
            None => {},
        }
        match self.config.min_length {
            Some(min) => {
                if byte_len < min {
                    return GuardrailResult::Fail {
                        reason: make_under_length_reason(byte_len, min),
                        severity: self.config.severity,
                    };
                }
            },
            None => {},
        }

        GuardrailResult::Pass
    }

    fn run_parallel(&self) -> (r: bool) {
        true
    }

    fn fail_fast(&self) -> (r: bool) {
        true
    }
}

} // verus!

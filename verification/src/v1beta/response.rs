use vstd::prelude::*;

verus! {

use crate::json::{JVal, JsonValue, jv_get, parsed_int};
use crate::v1beta::{Content, ContentV, sp_content_from, content_from_json};
use crate::v1beta::safety::{HarmCategory, HarmProbability};

/// One reply from the single-shot generation endpoint.
#[derive(Debug, Clone)]
pub struct Response {
    pub candidates: Vec<Candidate>,
    pub prompt_feedback: Option<PromptFeedback>,
    pub usage_metadata: Option<UsageMetadata>,
}

#[derive(Debug, Clone)]
pub struct Candidate {
    pub content: Option<Content>,
    pub finish_reason: Option<FinishReason>,
    pub index: Option<i32>,
    pub safety_ratings: Vec<SafetyRating>,
}

#[derive(Debug, Clone, Copy, PartialEq, Eq, Structural)]
pub struct UsageMetadata {
    pub prompt_token_count: Option<u32>,
    pub candidates_token_count: Option<u32>,
    pub total_token_count: Option<u32>,
}

#[derive(Debug, Clone)]
pub struct PromptFeedback {
    pub safety_ratings: Vec<SafetyRating>,
}

#[derive(Debug, Clone, Copy, PartialEq, Eq, Structural)]
pub struct SafetyRating {
    pub category: HarmCategory,
    pub probability: HarmProbability,
    pub blocked: bool,
}

#[derive(Debug, Clone, Copy, PartialEq, Eq)]
pub enum FinishReason {
    FinishReasonUnspecified,
    Stop,
    MaxTokens,
    Safety,
    Recitation,
    Other,
}

#[verifier::ext_equal]
pub ghost struct CandidateV {
    pub content: Option<ContentV>,
    pub finish_reason: Option<FinishReason>,
    pub index: Option<i32>,
    pub safety_ratings: Seq<SafetyRating>,
}

#[verifier::ext_equal]
pub ghost struct PromptFeedbackV {
    pub safety_ratings: Seq<SafetyRating>,
}

#[verifier::ext_equal]
pub ghost struct ResponseV {
    pub candidates: Seq<CandidateV>,
    pub prompt_feedback: Option<PromptFeedbackV>,
    pub usage_metadata: Option<UsageMetadata>,
}

impl View for Candidate {
    type V = CandidateV;

    open spec fn view(&self) -> CandidateV {
        CandidateV {
            content: match self.content {
                Some(ref c) => Some(c@),
                None => None,
            },
            finish_reason: self.finish_reason,
            index: self.index,
            safety_ratings: self.safety_ratings@,
        }
    }
}

impl View for PromptFeedback {
    type V = PromptFeedbackV;

    open spec fn view(&self) -> PromptFeedbackV {
        PromptFeedbackV { safety_ratings: self.safety_ratings@ }
    }
}

pub open spec fn candidates_view(s: Seq<Candidate>) -> Seq<CandidateV>
    decreases s.len(),
{
    if s.len() == 0 {
        Seq::empty()
    } else {
        seq![s[0]@] + candidates_view(s.subrange(1, s.len() as int))
    }
}

pub proof fn lemma_candidates_view(s: Seq<Candidate>)
    ensures
        candidates_view(s).len() == s.len(),
        forall|i: int| 0 <= i < s.len() ==> candidates_view(s)[i] == s[i]@,
    decreases s.len(),
{
    if s.len() > 0 {
        lemma_candidates_view(s.subrange(1, s.len() as int));
    }
}

impl View for Response {
    type V = ResponseV;

    open spec fn view(&self) -> ResponseV {
        ResponseV {
            candidates: candidates_view(self.candidates@),
            prompt_feedback: match self.prompt_feedback {
                Some(ref f) => Some(f@),
                None => None,
            },
            usage_metadata: self.usage_metadata,
        }
    }
}

// ---------------------------------------------------------------------------
// Decoding
// ---------------------------------------------------------------------------

pub open spec fn sp_u32_from(v: JVal) -> Option<u32> {
    match v {
        JVal::Num(t) => match parsed_int(t) {
            Some(n) => if 0 <= n <= u32::MAX {
                Some(n as u32)
            } else {
                None
            },
            None => None,
        },
        _ => None,
    }
}

/// An optional non-negative count, absent and null both meaning unset.
pub open spec fn sp_opt_u32(o: Option<JVal>) -> Option<Option<u32>> {
    match o {
        None => Some(None),
        Some(JVal::Null) => Some(None),
        Some(v) => match sp_u32_from(v) {
            Some(n) => Some(Some(n)),
            None => None,
        },
    }
}

pub open spec fn sp_harm_category_from(s: Seq<char>) -> Option<HarmCategory> {
    if s == "HARM_CATEGORY_UNSPECIFIED"@ {
        Some(HarmCategory::HarmCategoryUnspecified)
    } else if s == "HARM_CATEGORY_SEXUALLY_EXPLICIT"@ {
        Some(HarmCategory::HarmCategorySexuallyExplicit)
    } else if s == "HARM_CATEGORY_HATE_SPEECH"@ {
        Some(HarmCategory::HarmCategoryHateSpeech)
    } else if s == "HARM_CATEGORY_HARASSMENT"@ {
        Some(HarmCategory::HarmCategoryHarassment)
    } else if s == "HARM_CATEGORY_DANGEROUS_CONTENT"@ {
        Some(HarmCategory::HarmCategoryDangerousContent)
    } else {
        None
    }
}

pub open spec fn sp_harm_probability_from(s: Seq<char>) -> Option<HarmProbability> {
    if s == "HARM_PROBABILITY_UNSPECIFIED"@ {
        Some(HarmProbability::HarmProbabilityUnspecified)
    } else if s == "NEGLIGIBLE"@ {
        Some(HarmProbability::Negligible)
    } else if s == "LOW"@ {
        Some(HarmProbability::Low)
    } else if s == "MEDIUM"@ {
        Some(HarmProbability::Medium)
    } else if s == "HIGH"@ {
        Some(HarmProbability::High)
    } else {
        None
    }
}

pub open spec fn sp_finish_reason_from(s: Seq<char>) -> Option<FinishReason> {
    if s == "FINISH_REASON_UNSPECIFIED"@ {
        Some(FinishReason::FinishReasonUnspecified)
    } else if s == "STOP"@ {
        Some(FinishReason::Stop)
    } else if s == "MAX_TOKENS"@ {
        Some(FinishReason::MaxTokens)
    } else if s == "SAFETY"@ {
        Some(FinishReason::Safety)
    } else if s == "RECITATION"@ {
        Some(FinishReason::Recitation)
    } else if s == "OTHER"@ {
        Some(FinishReason::Other)
    } else {
        None
    }
}

pub open spec fn sp_safety_rating_from(v: JVal) -> Option<SafetyRating> {
    match jv_get(v, "category"@) {
        Some(JVal::Str(cs)) => match sp_harm_category_from(cs) {
            Some(category) => match jv_get(v, "probability"@) {
                Some(JVal::Str(ps)) => match sp_harm_probability_from(ps) {
                    Some(probability) => match jv_get(v, "blocked"@) {
                        None => Some(SafetyRating { category, probability, blocked: false }),
                        Some(JVal::Bool(b)) => Some(
                            SafetyRating { category, probability, blocked: b },
                        ),
                        Some(_) => None,
                    },
                    None => None,
                },
                _ => None,
            },
            None => None,
        },
        _ => None,
    }
}

pub open spec fn sp_ratings_from(s: Seq<JVal>) -> Option<Seq<SafetyRating>>
    decreases s.len(),
{
    if s.len() == 0 {
        Some(Seq::empty())
    } else {
        match sp_safety_rating_from(s[0]) {
            Some(r) => match sp_ratings_from(s.subrange(1, s.len() as int)) {
                Some(rest) => Some(seq![r] + rest),
                None => None,
            },
            None => None,
        }
    }
}

/// A rating list member: absent means empty.
pub open spec fn sp_ratings_list_from(o: Option<JVal>) -> Option<Seq<SafetyRating>> {
    match o {
        None => Some(Seq::empty()),
        Some(JVal::Arr(a)) => sp_ratings_from(a),
        Some(_) => None,
    }
}

pub open spec fn sp_candidate_from(v: JVal) -> Option<CandidateV> {
    let content_r = match jv_get(v, "content"@) {
        None => Some(None),
        Some(JVal::Null) => Some(None),
        Some(cv) => match sp_content_from(cv) {
            Some(c) => Some(Some(c)),
            None => None,
        },
    };
    match content_r {
        Some(content) => {
            let fr = match jv_get(v, "finishReason"@) {
                None => Some(None),
                Some(JVal::Null) => Some(None),
                Some(JVal::Str(s)) => match sp_finish_reason_from(s) {
                    Some(f) => Some(Some(f)),
                    None => None,
                },
                Some(_) => None,
            };
            match fr {
                Some(finish_reason) => match crate::v1beta::live::sp_opt_i32(
                    jv_get(v, "index"@),
                ) {
                    Some(index) => match sp_ratings_list_from(jv_get(v, "safetyRatings"@)) {
                        Some(safety_ratings) => Some(
                            CandidateV { content, finish_reason, index, safety_ratings },
                        ),
                        None => None,
                    },
                    None => None,
                },
                None => None,
            }
        },
        None => None,
    }
}

pub open spec fn sp_candidates_from(s: Seq<JVal>) -> Option<Seq<CandidateV>>
    decreases s.len(),
{
    if s.len() == 0 {
        Some(Seq::empty())
    } else {
        match sp_candidate_from(s[0]) {
            Some(c) => match sp_candidates_from(s.subrange(1, s.len() as int)) {
                Some(rest) => Some(seq![c] + rest),
                None => None,
            },
            None => None,
        }
    }
}

pub open spec fn sp_usage_from(v: JVal) -> Option<UsageMetadata> {
    match sp_opt_u32(jv_get(v, "promptTokenCount"@)) {
        Some(prompt_token_count) => match sp_opt_u32(jv_get(v, "candidatesTokenCount"@)) {
            Some(candidates_token_count) => match sp_opt_u32(jv_get(v, "totalTokenCount"@)) {
                Some(total_token_count) => Some(
                    UsageMetadata {
                        prompt_token_count,
                        candidates_token_count,
                        total_token_count,
                    },
                ),
                None => None,
            },
            None => None,
        },
        None => None,
    }
}

pub open spec fn sp_feedback_from(v: JVal) -> Option<PromptFeedbackV> {
    match sp_ratings_list_from(jv_get(v, "safetyRatings"@)) {
        Some(safety_ratings) => Some(PromptFeedbackV { safety_ratings }),
        None => None,
    }
}

/// A whole response: every member may be absent; a present member must have
/// its right shape.
pub open spec fn sp_response_from(v: JVal) -> Option<ResponseV> {
    if !(v is Obj) {
        None
    } else {
        let cands = match jv_get(v, "candidates"@) {
            None => Some(Seq::<CandidateV>::empty()),
            Some(JVal::Arr(a)) => sp_candidates_from(a),
            Some(_) => None,
        };
        match cands {
            Some(candidates) => {
                let fb = match jv_get(v, "promptFeedback"@) {
                    None => Some(None),
                    Some(JVal::Null) => Some(None),
                    Some(fv) => match sp_feedback_from(fv) {
                        Some(f) => Some(Some(f)),
                        None => None,
                    },
                };
                match fb {
                    Some(prompt_feedback) => {
                        let us = match jv_get(v, "usageMetadata"@) {
                            None => Some(None),
                            Some(JVal::Null) => Some(None),
                            Some(uv) => match sp_usage_from(uv) {
                                Some(u) => Some(Some(u)),
                                None => None,
                            },
                        };
                        match us {
                            Some(usage_metadata) => Some(
                                ResponseV { candidates, prompt_feedback, usage_metadata },
                            ),
                            None => None,
                        }
                    },
                    None => None,
                }
            },
            None => None,
        }
    }
}

fn u32_from_json(v: &JsonValue) -> (r: Option<u32>)
    ensures
        r == sp_u32_from(v@),
{
    match v.as_num() {
        Some(n) => match n.to_i64() {
            Some(x) => {
                if 0 <= x && x <= 0xffff_ffffi64 {
                    Some(x as u32)
                } else {
                    None
                }
            },
            None => None,
        },
        None => None,
    }
}

fn opt_u32_field(v: &JsonValue, key: &str) -> (r: Option<Option<u32>>)
    ensures
        r == sp_opt_u32(jv_get(v@, key@)),
{
    match v.get(key) {
        None => Some(None),
        Some(f) => {
            if f.is_null() {
                Some(None)
            } else {
                match u32_from_json(f) {
                    Some(n) => Some(Some(n)),
                    None => None,
                }
            }
        },
    }
}

fn safety_rating_from_json(v: &JsonValue) -> (r: Option<SafetyRating>)
    ensures
        r == sp_safety_rating_from(v@),
{
    match v.get("category") {
        Some(cv) => match cv.as_str() {
            Some(cs) => {
                let category = if *cs == "HARM_CATEGORY_UNSPECIFIED".to_owned() {
                    HarmCategory::HarmCategoryUnspecified
                } else if *cs == "HARM_CATEGORY_SEXUALLY_EXPLICIT".to_owned() {
                    HarmCategory::HarmCategorySexuallyExplicit
                } else if *cs == "HARM_CATEGORY_HATE_SPEECH".to_owned() {
                    HarmCategory::HarmCategoryHateSpeech
                } else if *cs == "HARM_CATEGORY_HARASSMENT".to_owned() {
                    HarmCategory::HarmCategoryHarassment
                } else if *cs == "HARM_CATEGORY_DANGEROUS_CONTENT".to_owned() {
                    HarmCategory::HarmCategoryDangerousContent
                } else {
                    return None;
                };
                match v.get("probability") {
                    Some(pv) => match pv.as_str() {
                        Some(ps) => {
                            let probability = if *ps == "HARM_PROBABILITY_UNSPECIFIED".to_owned() {
                                HarmProbability::HarmProbabilityUnspecified
                            } else if *ps == "NEGLIGIBLE".to_owned() {
                                HarmProbability::Negligible
                            } else if *ps == "LOW".to_owned() {
                                HarmProbability::Low
                            } else if *ps == "MEDIUM".to_owned() {
                                HarmProbability::Medium
                            } else if *ps == "HIGH".to_owned() {
                                HarmProbability::High
                            } else {
                                return None;
                            };
                            match v.get("blocked") {
                                None => Some(
                                    SafetyRating { category, probability, blocked: false },
                                ),
                                Some(bv) => match bv.as_bool() {
                                    Some(b) => Some(
                                        SafetyRating { category, probability, blocked: b },
                                    ),
                                    None => None,
                                },
                            }
                        },
                        None => None,
                    },
                    None => None,
                }
            },
            None => None,
        },
        None => None,
    }
}

fn ratings_from_json(a: &Vec<JsonValue>, i: usize) -> (r: Option<Vec<SafetyRating>>)
    requires
        i <= a.len(),
    ensures
        ({
            let sp = sp_ratings_from(
                crate::json::jv_elems_view(a@).subrange(i as int, a@.len() as int),
            );
            &&& (r is Some <==> sp is Some)
            &&& (r matches Some(rs) ==> sp == Some(rs@))
        }),
    decreases a.len() - i,
{
    proof {
        crate::json::lemma_jv_elems_view_len(a@);
    }
    let ghost ev = crate::json::jv_elems_view(a@);
    let ghost tail = ev.subrange(i as int, a@.len() as int);
    if i == a.len() {
        proof {
            assert(tail =~= Seq::<JVal>::empty());
        }
        return Some(Vec::new());
    }
    proof {
        assert(tail[0] == ev[i as int]);
        assert(tail.subrange(1, tail.len() as int) =~= ev.subrange(
            i + 1 as int,
            a@.len() as int,
        ));
    }
    match safety_rating_from_json(&a[i]) {
        Some(x) => match ratings_from_json(a, i + 1) {
            Some(rest) => {
                let ghost gx = x;
                let ghost grest = rest@;
                let mut all: Vec<SafetyRating> = Vec::new();
                all.push(x);
                let mut rest = rest;
                all.append(&mut rest);
                proof {
                    assert(all@ =~= seq![gx] + grest);
                }
                Some(all)
            },
            None => None,
        },
        None => None,
    }
}

fn ratings_list_field(v: &JsonValue, key: &str) -> (r: Option<Vec<SafetyRating>>)
    ensures
        ({
            let sp = sp_ratings_list_from(jv_get(v@, key@));
            &&& (r is Some <==> sp is Some)
            &&& (r matches Some(rs) ==> sp == Some(rs@))
        }),
{
    match v.get(key) {
        None => Some(Vec::new()),
        Some(fv) => match fv.as_arr() {
            Some(a) => {
                proof {
                    assert(crate::json::jv_elems_view(a@).subrange(
                        0,
                        a@.len() as int,
                    ) =~= crate::json::jv_elems_view(a@)) by {
                        crate::json::lemma_jv_elems_view_len(a@);
                    }
                }
                ratings_from_json(a, 0)
            },
            None => None,
        },
    }
}

fn candidate_from_json(v: &JsonValue) -> (r: Option<Candidate>)
    ensures
        r is Some <==> sp_candidate_from(v@) is Some,
        r matches Some(x) ==> sp_candidate_from(v@) == Some(x@),
{
    let content: Option<Content> = match v.get("content") {
        None => None,
        Some(cv) => {
            if cv.is_null() {
                None
            } else {
                match crate::v1beta::content_from_json(cv) {
                    Some(c) => Some(c),
                    None => {
                        return None;
                    },
                }
            }
        },
    };
    let finish_reason: Option<FinishReason> = match v.get("finishReason") {
        None => None,
        Some(fv) => {
            if fv.is_null() {
                None
            } else {
                match fv.as_str() {
                    Some(s) => {
                        if *s == "FINISH_REASON_UNSPECIFIED".to_owned() {
                            Some(FinishReason::FinishReasonUnspecified)
                        } else if *s == "STOP".to_owned() {
                            Some(FinishReason::Stop)
                        } else if *s == "MAX_TOKENS".to_owned() {
                            Some(FinishReason::MaxTokens)
                        } else if *s == "SAFETY".to_owned() {
                            Some(FinishReason::Safety)
                        } else if *s == "RECITATION".to_owned() {
                            Some(FinishReason::Recitation)
                        } else if *s == "OTHER".to_owned() {
                            Some(FinishReason::Other)
                        } else {
                            return None;
                        }
                    },
                    None => {
                        return None;
                    },
                }
            }
        },
    };
    let index = match crate::v1beta::live::opt_i32_field(v, "index") {
        Some(x) => x,
        None => {
            return None;
        },
    };
    match ratings_list_field(v, "safetyRatings") {
        Some(safety_ratings) => Some(
            Candidate { content, finish_reason, index, safety_ratings },
        ),
        None => None,
    }
}

fn candidates_from_json(a: &Vec<JsonValue>, i: usize) -> (r: Option<Vec<Candidate>>)
    requires
        i <= a.len(),
    ensures
        ({
            let sp = sp_candidates_from(
                crate::json::jv_elems_view(a@).subrange(i as int, a@.len() as int),
            );
            &&& (r is Some <==> sp is Some)
            &&& (r matches Some(cs) ==> sp == Some(candidates_view(cs@)))
        }),
    decreases a.len() - i,
{
    proof {
        crate::json::lemma_jv_elems_view_len(a@);
    }
    let ghost ev = crate::json::jv_elems_view(a@);
    let ghost tail = ev.subrange(i as int, a@.len() as int);
    if i == a.len() {
        proof {
            assert(tail =~= Seq::<JVal>::empty());
        }
        return Some(Vec::new());
    }
    proof {
        assert(tail[0] == ev[i as int]);
        assert(tail.subrange(1, tail.len() as int) =~= ev.subrange(
            i + 1 as int,
            a@.len() as int,
        ));
    }
    match candidate_from_json(&a[i]) {
        Some(c) => match candidates_from_json(a, i + 1) {
            Some(rest) => {
                let ghost gc = c;
                let ghost grest = rest@;
                let mut all: Vec<Candidate> = Vec::new();
                all.push(c);
                let mut rest = rest;
                all.append(&mut rest);
                proof {
                    assert(all@ =~= seq![gc] + grest);
                    lemma_candidates_view(all@);
                    lemma_candidates_view(grest);
                    assert(candidates_view(all@) =~= seq![gc@] + candidates_view(grest));
                }
                Some(all)
            },
            None => None,
        },
        None => None,
    }
}

fn usage_from_json(v: &JsonValue) -> (r: Option<UsageMetadata>)
    ensures
        r == sp_usage_from(v@),
{
    match opt_u32_field(v, "promptTokenCount") {
        Some(prompt_token_count) => match opt_u32_field(v, "candidatesTokenCount") {
            Some(candidates_token_count) => match opt_u32_field(v, "totalTokenCount") {
                Some(total_token_count) => Some(
                    UsageMetadata {
                        prompt_token_count,
                        candidates_token_count,
                        total_token_count,
                    },
                ),
                None => None,
            },
            None => None,
        },
        None => None,
    }
}

/// Reads one response from its JSON value.
pub fn response_from_json(v: &JsonValue) -> (r: Option<Response>)
    ensures
        r is Some <==> sp_response_from(v@) is Some,
        r matches Some(x) ==> sp_response_from(v@) == Some(x@),
{
    if v.as_obj().is_none() {
        return None;
    }
    let candidates: Vec<Candidate> = match v.get("candidates") {
        None => {
            proof {
                assert(candidates_view(Seq::<Candidate>::empty()) =~= Seq::<CandidateV>::empty());
            }
            Vec::new()
        },
        Some(cv) => match cv.as_arr() {
            Some(a) => {
                proof {
                    assert(crate::json::jv_elems_view(a@).subrange(
                        0,
                        a@.len() as int,
                    ) =~= crate::json::jv_elems_view(a@)) by {
                        crate::json::lemma_jv_elems_view_len(a@);
                    }
                }
                match candidates_from_json(a, 0) {
                    Some(cs) => cs,
                    None => {
                        return None;
                    },
                }
            },
            None => {
                return None;
            },
        },
    };
    let prompt_feedback: Option<PromptFeedback> = match v.get("promptFeedback") {
        None => None,
        Some(fv) => {
            if fv.is_null() {
                None
            } else {
                match ratings_list_field(fv, "safetyRatings") {
                    Some(safety_ratings) => Some(PromptFeedback { safety_ratings }),
                    None => {
                        return None;
                    },
                }
            }
        },
    };
    let usage_metadata: Option<UsageMetadata> = match v.get("usageMetadata") {
        None => None,
        Some(uv) => {
            if uv.is_null() {
                None
            } else {
                match usage_from_json(uv) {
                    Some(u) => Some(u),
                    None => {
                        return None;
                    },
                }
            }
        },
    };
    Some(Response { candidates, prompt_feedback, usage_metadata })
}

} // verus!

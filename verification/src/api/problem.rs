//! The question bank: one problem with its image, and the packaged list.

use vstd::prelude::*;
use vstd::string::*;
use crate::db::{Store, copy_strings};
use crate::error::{ApiError, ApiErrorType, ApiResult};
use crate::jwt::ClaimsValidator;
use crate::model::{ProblemView, by_id};
use crate::seqs::{find_one, views};

verus! {

#[derive(Debug, Clone)]
pub struct ProblemResponse {
    pub tags: Vec<String>,
    pub image: String,
}

#[derive(Debug, Clone)]
pub struct QBankEntry {
    pub id: String,
    pub tags: Vec<String>,
    pub path: String,
}

pub struct QBankEntryView {
    pub id: Seq<char>,
    pub tags: Seq<Seq<char>>,
    pub path: Seq<char>,
}

impl View for QBankEntry {
    type V = QBankEntryView;

    open spec fn view(&self) -> QBankEntryView {
        QBankEntryView { id: self.id@, tags: views(self.tags@), path: self.path@ }
    }
}

/// The character that stands for six bits in the standard base64 alphabet.
pub open spec fn sextet(bits: int) -> char {
    if bits < 26 {
        ((65 + bits) as u8) as char
    } else if bits < 52 {
        ((97 + bits - 26) as u8) as char
    } else if bits < 62 {
        ((48 + bits - 52) as u8) as char
    } else if bits == 62 {
        '+'
    } else {
        '/'
    }
}

/// The padded base64 text of a byte string: four characters for every three
/// bytes, the last group filled with `=`.
pub open spec fn base64_text(bytes: Seq<u8>) -> Seq<char>
    decreases bytes.len(),
{
    if bytes.len() == 0 {
        Seq::empty()
    } else if bytes.len() == 1 {
        let a = bytes[0] as int;
        seq![sextet(a / 4), sextet((a % 4) * 16), '=', '=']
    } else if bytes.len() == 2 {
        let a = bytes[0] as int;
        let b = bytes[1] as int;
        seq![sextet(a / 4), sextet((a % 4) * 16 + b / 16), sextet((b % 16) * 4), '=']
    } else {
        let a = bytes[0] as int;
        let b = bytes[1] as int;
        let c = bytes[2] as int;
        seq![
            sextet(a / 4),
            sextet((a % 4) * 16 + b / 16),
            sextet((b % 16) * 4 + c / 64),
            sextet(c % 64),
        ] + base64_text(bytes.skip(3))
    }
}

/// The tags that are strings, in order.
pub open spec fn string_tags(tags: Seq<Option<Seq<char>>>) -> Seq<Seq<char>>
    decreases tags.len(),
{
    if tags.len() == 0 {
        Seq::empty()
    } else {
        match tags.last() {
            Some(tag) => string_tags(tags.drop_last()).push(tag),
            None => string_tags(tags.drop_last()),
        }
    }
}

/// The message that reports a missing problem.
pub open spec fn missing_problem(id: Seq<char>) -> Seq<char> {
    "Problem with ID "@ + id + " not found"@
}

/// Encodes with `base64::engine::general_purpose::STANDARD.encode`: the
/// standard alphabet with padding, as `base64_text` spells it out.
#[verifier::external_body]
fn encode(bytes: &Vec<u8>) -> (text: String)
    ensures
        text@ == base64_text(bytes@),
{
    base64::Engine::encode(&base64::engine::general_purpose::STANDARD, bytes)
}

/// The response shows a stored problem that has an image: its string tags in
/// order, and the image in base64.
pub open spec fn shown(out: ProblemResponse, problem: ProblemView) -> bool {
    problem.image matches Some(bytes) && views(out.tags@) == string_tags(problem.tags)
        && out.image@ == base64_text(bytes)
}

/// The problem with the id `problem_id`.
pub fn get_problem(db: &Store, _user: &ClaimsValidator, problem_id: &str) -> (r: ApiResult<
    ProblemResponse,
>)
    ensures
        match find_one(db@.qbank, by_id(problem_id@)) {
            None => r matches Err(e) && e.is(ApiErrorType::NotFound, missing_problem(problem_id@)),
            Some(problem) => match problem.image {
                None => r matches Err(e) && e.is(
                    ApiErrorType::Internal,
                    "Failed to extract image data"@,
                ),
                Some(_) => r matches Ok(out) && shown(out, problem),
            },
        },
{
    let problem = match db.find_problem(problem_id) {
        Some(p) => p,
        None => {
            let message = "Problem with ID ".to_string().concat(problem_id).concat(" not found");
            return Err(ApiError::new(ApiErrorType::NotFound, message));
        },
    };
    let mut tags: Vec<String> = Vec::new();
    let mut i: usize = 0;
    while i < problem.tags.len()
        invariant
            i <= problem.tags.len(),
            views(tags@) == string_tags(problem@.tags.take(i as int)),
        decreases problem.tags.len() - i,
    {
        let ghost before = tags@;
        proof {
            let all = problem@.tags;
            assert(all.take(i + 1).drop_last() =~= all.take(i as int));
            assert(all.take(i + 1).last() == all[i as int]);
        }
        match &problem.tags[i] {
            Some(tag) => {
                tags.push(tag.clone());
                assert(views(tags@) =~= views(before).push(tag@));
            },
            None => {},
        }
        i += 1;
    }
    assert(problem@.tags.take(i as int) =~= problem@.tags);
    match &problem.image {
        Some(bytes) => Ok(ProblemResponse { tags, image: encode(bytes) }),
        None => Err(
            ApiError::new(ApiErrorType::Internal, "Failed to extract image data".to_string()),
        ),
    }
}

/// The packaged question bank, as it was loaded.
pub fn get_qbank(qbank_data: &Vec<QBankEntry>, _user: &ClaimsValidator) -> (r: Vec<QBankEntry>)
    ensures
        views(r@) == views(qbank_data@),
{
    let mut r: Vec<QBankEntry> = Vec::new();
    let mut i: usize = 0;
    while i < qbank_data.len()
        invariant
            i <= qbank_data.len(),
            views(r@) == views(qbank_data@).take(i as int),
        decreases qbank_data.len() - i,
    {
        let ghost before = r@;
        let entry = &qbank_data[i];
        r.push(
            QBankEntry { id: entry.id.clone(), tags: copy_strings(&entry.tags), path: entry.path.clone() },
        );
        assert(views(r@) =~= views(before).push(entry@));
        assert(views(r@) =~= views(qbank_data@).take(i + 1));
        i += 1;
    }
    assert(views(qbank_data@).take(i as int) =~= views(qbank_data@));
    r
}

} // verus!

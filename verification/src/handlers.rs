//! The request pipeline around the encoder capability: normalization and
//! validation of the decoded request, assembly of the success body, the
//! model listing, and the proofs tying them together.
//!
//! The CPU-bound encode call itself runs outside this crate, on a worker
//! pool; the pipeline admits a request before that call and finishes it
//! from the call's outcome, whatever that outcome is.

use vstd::prelude::*;
use vstd::string::StringExecFns;
use vstd::utf8::encode_utf8;

use crate::decimal::{decimal_digits, usize_to_string};
use crate::models::{
    EmbeddingData, EmbeddingInput, EmbeddingRequest, EmbeddingResponse, ErrorDetail, ErrorResponse,
    Usage,
};

verus! {

/// The byte length of a text: the unit in which the input-length limit is
/// measured, deliberately not a character or grapheme count.
pub open spec fn byte_len(s: Seq<char>) -> nat {
    encode_utf8(s).len()
}

/// Relies on str::len: the length of the string's UTF-8 byte
/// representation. A Rust string never exceeds `isize::MAX` bytes, so the
/// machine word reports that length exactly.
#[verifier::external_body]
fn str_byte_len(s: &str) -> (n: usize)
    ensures
        n == byte_len(s@),
{
    s.len()
}

/// A structural rejection of a decoded request.
#[derive(Clone, Copy, Debug, PartialEq, Eq, Structural)]
pub enum ValidationError {
    EmptyInput,
    BatchTooLarge,
    InputTooLong,
}

/// The first failing validation check for a batch of texts, or `None`
/// when the batch is admissible: emptiness, then the batch-size bound,
/// then each text's byte length. The first failure wins; none accumulate.
pub open spec fn first_failure(
    texts: Seq<Seq<char>>,
    max_batch_size: nat,
    max_input_length: nat,
) -> Option<ValidationError> {
    if texts.len() == 0 {
        Some(ValidationError::EmptyInput)
    } else if texts.len() > max_batch_size {
        Some(ValidationError::BatchTooLarge)
    } else if exists|i: int| 0 <= i < texts.len() && byte_len(texts[i]) > max_input_length {
        Some(ValidationError::InputTooLong)
    } else {
        None
    }
}

/// Normalizes the tagged input into the ordered batch of texts: a lone
/// string becomes a one-element batch, a batch stays as it is.
pub fn extract_texts(input: EmbeddingInput) -> (r: Vec<String>)
    ensures
        r.deep_view() == input.texts(),
{
    match input {
        EmbeddingInput::Single(text) => {
            let mut batch: Vec<String> = Vec::new();
            batch.push(text);
            proof {
                assert(batch.deep_view() =~= input.texts());
            }
            batch
        },
        EmbeddingInput::Batch(texts) => texts,
    }
}

/// Checks a batch against the configured limits. Purely functional: the
/// result is exactly what [`first_failure`] says of the batch.
#[verifier::loop_isolation(false)]
pub fn validate_texts(texts: &Vec<String>, max_batch_size: usize, max_input_length: usize) -> (r:
    Result<(), ValidationError>)
    ensures
        r == match first_failure(
            texts.deep_view(),
            max_batch_size as nat,
            max_input_length as nat,
        ) {
            Some(e) => Err::<(), ValidationError>(e),
            None => Ok::<(), ValidationError>(()),
        },
{
    if texts.len() == 0 {
        return Err(ValidationError::EmptyInput);
    }
    if texts.len() > max_batch_size {
        return Err(ValidationError::BatchTooLarge);
    }
    let mut i: usize = 0;
    while i < texts.len()
        invariant
            i <= texts.len(),
            forall|j: int| 0 <= j < i ==> byte_len(#[trigger] texts.deep_view()[j])
                <= max_input_length,
        decreases texts.len() - i,
    {
        if str_byte_len(texts[i].as_str()) > max_input_length {
            proof {
                assert(byte_len(texts.deep_view()[i as int]) > max_input_length);
            }
            return Err(ValidationError::InputTooLong);
        }
        i += 1;
    }
    Ok(())
}

/// The wire shape of one validation failure: status 400, the category
/// `invalid_request_error`, a machine code naming the failed check, and a
/// message quoting the relevant configured limit.
pub open spec fn is_validation_envelope(
    r: (u16, ErrorResponse),
    e: ValidationError,
    max_batch_size: nat,
    max_input_length: nat,
) -> bool {
    &&& r.0 == 400
    &&& r.1.error.error_type@ == "invalid_request_error"@
    &&& match e {
        ValidationError::EmptyInput => {
            &&& r.1.error.message@ == "Input cannot be empty"@
            &&& r.1.error.code matches Some(c) && c@ == "empty_input"@
        },
        ValidationError::BatchTooLarge => {
            &&& r.1.error.message@ == "Batch size exceeds maximum of "@ + decimal_digits(
                max_batch_size,
            )
            &&& r.1.error.code matches Some(c) && c@ == "batch_too_large"@
        },
        ValidationError::InputTooLong => {
            &&& r.1.error.message@ == "Input exceeds maximum length of "@ + decimal_digits(
                max_input_length,
            )
            &&& r.1.error.code matches Some(c) && c@ == "input_too_long"@
        },
    }
}

/// Maps one validation failure to its wire envelope.
pub fn validation_error_response(e: &ValidationError, max_batch_size: usize, max_input_length: usize) -> (r: (
    u16,
    ErrorResponse,
))
    ensures
        is_validation_envelope(r, *e, max_batch_size as nat, max_input_length as nat),
{
    match e {
        ValidationError::EmptyInput => (
            400,
            ErrorResponse {
                error: ErrorDetail {
                    message: "Input cannot be empty".to_owned(),
                    error_type: "invalid_request_error".to_owned(),
                    code: Some("empty_input".to_owned()),
                },
            },
        ),
        ValidationError::BatchTooLarge => {
            let limit = usize_to_string(max_batch_size);
            (
                400,
                ErrorResponse {
                    error: ErrorDetail {
                        message: "Batch size exceeds maximum of ".to_owned().concat(
                            limit.as_str(),
                        ),
                        error_type: "invalid_request_error".to_owned(),
                        code: Some("batch_too_large".to_owned()),
                    },
                },
            )
        },
        ValidationError::InputTooLong => {
            let limit = usize_to_string(max_input_length);
            (
                400,
                ErrorResponse {
                    error: ErrorDetail {
                        message: "Input exceeds maximum length of ".to_owned().concat(
                            limit.as_str(),
                        ),
                        error_type: "invalid_request_error".to_owned(),
                        code: Some("input_too_long".to_owned()),
                    },
                },
            )
        },
    }
}

/// Takes one decoded request from its arrival to the point where encoding
/// may start: the input is normalized and admitted in full, together with
/// the client's model hint, or rejected with the envelope of its first
/// failing check.
pub fn admit_request(request: EmbeddingRequest, max_batch_size: usize, max_input_length: usize) -> (r:
    Result<(Vec<String>, Option<String>), (u16, ErrorResponse)>)
    ensures
        match r {
            Ok((texts, hint)) => texts.deep_view() == request.input.texts() && hint
                == request.model && first_failure(
                request.input.texts(),
                max_batch_size as nat,
                max_input_length as nat,
            ) is None,
            Err(resp) => first_failure(
                request.input.texts(),
                max_batch_size as nat,
                max_input_length as nat,
            ) matches Some(e) && is_validation_envelope(
                resp,
                e,
                max_batch_size as nat,
                max_input_length as nat,
            ),
        },
{
    let EmbeddingRequest { input, model } = request;
    let texts = extract_texts(input);
    match validate_texts(&texts, max_batch_size, max_input_length) {
        Ok(()) => Ok((texts, model)),
        Err(e) => Err(validation_error_response(&e, max_batch_size, max_input_length)),
    }
}

/// What the encoder capability hands back for one admitted batch: one
/// embedding vector and one token count per text, both index-aligned with
/// the batch.
pub struct EncodeResult<V> {
    pub embeddings: Vec<V>,
    pub token_counts: Vec<usize>,
}

/// The sum of the per-text token counts.
pub open spec fn sum_counts(counts: Seq<usize>) -> int
    decreases counts.len(),
{
    if counts.len() == 0 {
        0
    } else {
        sum_counts(counts.drop_last()) + counts.last()
    }
}

proof fn lemma_sum_counts_take_le(counts: Seq<usize>, k: int)
    requires
        0 <= k <= counts.len(),
    ensures
        sum_counts(counts.take(k)) <= sum_counts(counts),
    decreases counts.len() - k,
{
    if k < counts.len() {
        assert(counts.take(k + 1).drop_last() =~= counts.take(k));
        assert(counts.take(k + 1).last() == counts[k]);
        lemma_sum_counts_take_le(counts, k + 1);
    } else {
        assert(counts.take(k) =~= counts);
    }
}

/// The total token usage of a batch, when the machine word holds it.
#[verifier::loop_isolation(false)]
pub fn token_total(counts: &Vec<usize>) -> (r: Option<usize>)
    ensures
        match r {
            Some(total) => total == sum_counts(counts@),
            None => sum_counts(counts@) > usize::MAX,
        },
{
    let mut total: usize = 0;
    let mut i: usize = 0;
    while i < counts.len()
        invariant
            i <= counts.len(),
            total == sum_counts(counts@.take(i as int)),
        decreases counts.len() - i,
    {
        proof {
            assert(counts@.take(i + 1).drop_last() =~= counts@.take(i as int));
            assert(counts@.take(i + 1).last() == counts@[i as int]);
        }
        total = match total.checked_add(counts[i]) {
            Some(t) => t,
            None => {
                proof {
                    lemma_sum_counts_take_le(counts@, i + 1);
                }
                return None;
            },
        };
        i += 1;
    }
    proof {
        assert(counts@.take(counts@.len() as int) =~= counts@);
    }
    Some(total)
}

/// The response assembled from an encode result: `data` carries the
/// vectors in input order under the constant tags, `model` resolves the
/// client's hint against the configured name, and both usage fields hold
/// the batch's token total.
pub open spec fn assembled_from<V>(
    resp: EmbeddingResponse<V>,
    embeddings: Seq<V>,
    token_counts: Seq<usize>,
    model_hint: Option<Seq<char>>,
    configured_model: Seq<char>,
) -> bool {
    &&& resp.object@ == "list"@
    &&& resp.data@.len() == embeddings.len()
    &&& forall|i: int|
        0 <= i < embeddings.len() ==> {
            &&& (#[trigger] resp.data@[i]).object@ == "embedding"@
            &&& resp.data@[i].embedding == embeddings[i]
            &&& resp.data@[i].index == i
        }
    &&& resp.model@ == match model_hint {
        Some(h) => h,
        None => configured_model,
    }
    &&& resp.usage.prompt_tokens == sum_counts(token_counts)
    &&& resp.usage.total_tokens == sum_counts(token_counts)
}

/// Converts an encode result into the wire response: one entry per vector,
/// at the position the input order gives it.
#[verifier::loop_isolation(false)]
pub fn assemble_response<V>(
    result: EncodeResult<V>,
    model_hint: Option<String>,
    configured_model: &str,
) -> (r: EmbeddingResponse<V>)
    requires
        sum_counts(result.token_counts@) <= usize::MAX,
    ensures
        assembled_from(
            r,
            result.embeddings@,
            result.token_counts@,
            model_hint.deep_view(),
            configured_model@,
        ),
{
    let EncodeResult { mut embeddings, token_counts } = result;
    let total = match token_total(&token_counts) {
        Some(t) => t,
        None => {
            proof {
                assert(false);
            }
            0
        },
    };
    let ghost all = embeddings@;
    let mut data: Vec<EmbeddingData<V>> = Vec::new();
    while embeddings.len() > 0
        invariant
            data@.len() + embeddings@.len() == all.len(),
            embeddings@ == all.subrange(data@.len() as int, all.len() as int),
            forall|i: int|
                0 <= i < data@.len() ==> {
                    &&& (#[trigger] data@[i]).object@ == "embedding"@
                    &&& data@[i].embedding == all[i]
                    &&& data@[i].index == i
                },
        decreases embeddings.len(),
    {
        let vector = embeddings.remove(0);
        let index = data.len();
        data.push(EmbeddingData { object: "embedding".to_owned(), embedding: vector, index });
        proof {
            assert(embeddings@ =~= all.subrange(data@.len() as int, all.len() as int));
        }
    }
    let model = match model_hint {
        Some(name) => name,
        None => configured_model.to_owned(),
    };
    EmbeddingResponse {
        object: "list".to_owned(),
        data,
        model,
        usage: Usage { prompt_tokens: total, total_tokens: total },
    }
}

/// Takes the offloaded encode call's outcome to the request's end: a
/// worker failure becomes the uniform 500 envelope, a result becomes the
/// success body. Holds for every outcome the worker pool may hand back.
pub fn finish_request<V>(
    outcome: Result<EncodeResult<V>, String>,
    model_hint: Option<String>,
    configured_model: &str,
) -> (r: Result<EmbeddingResponse<V>, (u16, ErrorResponse)>)
    requires
        outcome matches Ok(res) ==> sum_counts(res.token_counts@) <= usize::MAX,
    ensures
        match outcome {
            Ok(res) => r matches Ok(resp) && assembled_from(
                resp,
                res.embeddings@,
                res.token_counts@,
                model_hint.deep_view(),
                configured_model@,
            ),
            Err(fault) => r matches Err(er) && er.0 == 500 && er.1.error.message@
                == "Embedding generation task failed: "@ + fault@ && er.1.error.error_type@
                == "server_error"@ && er.1.error.code is None,
        },
{
    match outcome {
        Ok(res) => Ok(assemble_response(res, model_hint, configured_model)),
        Err(fault) => Err(
            (
                500,
                ErrorResponse {
                    error: ErrorDetail {
                        message: "Embedding generation task failed: ".to_owned().concat(
                            fault.as_str(),
                        ),
                        error_type: "server_error".to_owned(),
                        code: None,
                    },
                },
            ),
        ),
    }
}

/// One entry of the model listing.
pub struct ModelCard {
    pub id: String,
    pub object: String,
    pub owned_by: String,
}

/// The body served for a model-listing request.
pub struct ModelListing {
    pub object: String,
    pub data: Vec<ModelCard>,
}

/// The listing of the one model this service hosts.
pub fn models_listing(model_name: &str) -> (r: ModelListing)
    ensures
        r.object@ == "list"@,
        r.data@.len() == 1,
        r.data@[0].id@ == model_name@,
        r.data@[0].object@ == "model"@,
        r.data@[0].owned_by@ == "local"@,
{
    let mut data: Vec<ModelCard> = Vec::new();
    data.push(
        ModelCard {
            id: model_name.to_owned(),
            object: "model".to_owned(),
            owned_by: "local".to_owned(),
        },
    );
    ModelListing { object: "list".to_owned(), data }
}

/// For a well-formed request, the response carries exactly one entry per
/// input text, and the entry at position `i` has index `i`: the encoder
/// capability returns one vector per text, and assembly keeps the order.
pub proof fn lemma_response_alignment<V>(
    resp: EmbeddingResponse<V>,
    texts: Seq<Seq<char>>,
    embeddings: Seq<V>,
    token_counts: Seq<usize>,
    model_hint: Option<Seq<char>>,
    configured_model: Seq<char>,
)
    requires
        embeddings.len() == texts.len(),
        assembled_from(resp, embeddings, token_counts, model_hint, configured_model),
    ensures
        resp.data@.len() == texts.len(),
        forall|i: int| 0 <= i < texts.len() ==> (#[trigger] resp.data@[i]).index == i,
{
}

/// Both usage fields of an assembled response equal the sum of the
/// per-text token counts the encoder reported.
pub proof fn lemma_usage_totals<V>(
    resp: EmbeddingResponse<V>,
    embeddings: Seq<V>,
    token_counts: Seq<usize>,
    model_hint: Option<Seq<char>>,
    configured_model: Seq<char>,
)
    requires
        assembled_from(resp, embeddings, token_counts, model_hint, configured_model),
    ensures
        resp.usage.prompt_tokens == sum_counts(token_counts),
        resp.usage.total_tokens == resp.usage.prompt_tokens,
{
}

/// Identical inputs give identical responses: two responses assembled
/// from the same encode result under the same model names agree on every
/// observable field — the vectors and the usage bit for bit, the strings
/// character for character.
pub proof fn lemma_assembly_deterministic<V>(
    r1: EmbeddingResponse<V>,
    r2: EmbeddingResponse<V>,
    embeddings: Seq<V>,
    token_counts: Seq<usize>,
    model_hint: Option<Seq<char>>,
    configured_model: Seq<char>,
)
    requires
        assembled_from(r1, embeddings, token_counts, model_hint, configured_model),
        assembled_from(r2, embeddings, token_counts, model_hint, configured_model),
    ensures
        r1.object@ == r2.object@,
        r1.model@ == r2.model@,
        r1.usage == r2.usage,
        r1.data@.len() == r2.data@.len(),
        forall|i: int|
            0 <= i < r1.data@.len() ==> {
                &&& (#[trigger] r1.data@[i]).embedding == r2.data@[i].embedding
                &&& r1.data@[i].index == r2.data@[i].index
                &&& r1.data@[i].object@ == r2.data@[i].object@
            },
{
}

} // verus!

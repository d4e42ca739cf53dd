//! The one remote operation, `Translate`: its messages, how the server turns
//! the engine's outcome into a reply, and how the client accepts a reply.
//!
//! A reply holds exactly one translated string per unit of the request, in the
//! same order; an empty unit, a paragraph break, comes back empty; a batch is
//! translated whole or not at all.

use vstd::prelude::*;

use crate::segment::text_views;

verus! {

/// A batch of units to translate, in order.
#[derive(Debug, Clone, PartialEq, Eq)]
pub struct TranslationRequest {
    pub source: Vec<String>,
}

/// The translations of a batch, one per unit, in the order of the units.
#[derive(Debug, Clone, PartialEq, Eq)]
pub struct TranslationResponse {
    pub result: Vec<String>,
}

/// Why a translate call failed.
#[derive(Debug, Clone, PartialEq, Eq)]
pub enum TranslateError {
    /// The engine failed on the batch, with this message.
    Engine(String),
    /// A reply did not hold one entry per unit.
    LengthMismatch { expected: usize, actual: usize },
}

/// The request that carries `units`.
pub fn build_request(units: Vec<String>) -> (r: TranslationRequest)
    ensures
        r.source@ == units@,
{
    TranslationRequest { source: units }
}

/// The engine's translations `out` of `units`, with each empty unit passed
/// through as an empty string.
pub open spec fn passed_through(units: Seq<Seq<char>>, out: Seq<Seq<char>>) -> Seq<Seq<char>> {
    Seq::new(
        out.len(),
        |i: int|
            if units[i].len() == 0 {
                Seq::<char>::empty()
            } else {
                out[i]
            },
    )
}

/// The reply to a request of `units`, given what the engine made of them: its
/// translations when there is one per unit, empty units kept empty, else the
/// failure.
pub open spec fn reply(units: Seq<Seq<char>>, outcome: Result<Seq<Seq<char>>, String>) -> Result<
    Seq<Seq<char>>,
    TranslateError,
> {
    match outcome {
        Ok(v) => if v.len() == units.len() {
            Ok(passed_through(units, v))
        } else {
            Err(
                TranslateError::LengthMismatch {
                    expected: units.len() as usize,
                    actual: v.len() as usize,
                },
            )
        },
        Err(m) => Err(TranslateError::Engine(m)),
    }
}

/// What a client expecting `n` units makes of a reply holding `result`.
pub open spec fn accepted(n: nat, result: Seq<Seq<char>>) -> Result<
    Seq<Seq<char>>,
    TranslateError,
> {
    if result.len() == n {
        Ok(result)
    } else {
        Err(TranslateError::LengthMismatch { expected: n as usize, actual: result.len() as usize })
    }
}

/// The engine's outcome, its translations as character sequences.
pub open spec fn outcome_view(outcome: Result<Vec<String>, String>) -> Result<
    Seq<Seq<char>>,
    String,
> {
    match outcome {
        Ok(v) => Ok(text_views(v@)),
        Err(m) => Err(m),
    }
}

/// The server's reply to `request`, given what the engine made of its units:
/// the translations when there is one per unit, with every empty unit passed
/// through as an empty string, else the failure.
pub fn respond(request: &TranslationRequest, outcome: Result<Vec<String>, String>) -> (r: Result<
    TranslationResponse,
    TranslateError,
>)
    ensures
        r matches Ok(resp) ==> resp.result.len() == request.source.len(),
        r matches Ok(resp) ==> forall|i: int|
            0 <= i < request.source@.len() && (#[trigger] request.source@[i])@.len() == 0
                ==> resp.result@[i]@.len() == 0,
        match r {
            Ok(resp) => reply(text_views(request.source@), outcome_view(outcome)) == Ok::<
                Seq<Seq<char>>,
                TranslateError,
            >(text_views(resp.result@)),
            Err(e) => reply(text_views(request.source@), outcome_view(outcome)) == Err::<
                Seq<Seq<char>>,
                TranslateError,
            >(e),
        },
{
    match outcome {
        Ok(v) => {
            let n = request.source.len();
            if v.len() == n {
                let ghost units = text_views(request.source@);
                let mut result: Vec<String> = Vec::new();
                for i in 0..n
                    invariant
                        n == request.source@.len(),
                        n == v@.len(),
                        units == text_views(request.source@),
                        text_views(result@) == passed_through(units, text_views(v@)).take(
                            i as int,
                        ),
                {
                    let t = if request.source[i].as_str().is_empty() {
                        String::new()
                    } else {
                        v[i].clone()
                    };
                    let ghost prev = result@;
                    result.push(t);
                    assert(text_views(result@) =~= text_views(prev).push(t@));
                    assert(text_views(result@) =~= passed_through(units, text_views(v@)).take(
                        i as int + 1,
                    ));
                }
                assert(passed_through(units, text_views(v@)).take(n as int) =~= passed_through(
                    units,
                    text_views(v@),
                ));
                assert forall|i: int|
                    0 <= i < request.source@.len() && (#[trigger] request.source@[i])@.len()
                        == 0 implies result@[i]@.len() == 0 by {
                    assert(text_views(result@)[i] == result@[i]@);
                    assert(units[i] == request.source@[i]@);
                }
                Ok(TranslationResponse { result })
            } else {
                Err(TranslateError::LengthMismatch { expected: n, actual: v.len() })
            }
        },
        Err(m) => Err(TranslateError::Engine(m)),
    }
}

/// The client's reading of `response` to a request of `expected` units: its
/// translations when there is one per unit, else the mismatch.
pub fn accept_response(expected: usize, response: TranslationResponse) -> (r: Result<
    Vec<String>,
    TranslateError,
>)
    ensures
        r is Ok <==> response.result.len() == expected,
        r matches Ok(v) ==> v@ == response.result@,
        match r {
            Ok(v) => accepted(expected as nat, text_views(response.result@)) == Ok::<
                Seq<Seq<char>>,
                TranslateError,
            >(text_views(v@)),
            Err(e) => accepted(expected as nat, text_views(response.result@)) == Err::<
                Seq<Seq<char>>,
                TranslateError,
            >(e),
        },
{
    if response.result.len() == expected {
        Ok(response.result)
    } else {
        Err(TranslateError::LengthMismatch { expected, actual: response.result.len() })
    }
}

/// Index correspondence across the exchange: when the server replies to a
/// request of `units`, the reply holds exactly one entry per unit; an empty
/// unit gets an empty entry, any other unit the engine's translation at the
/// same place; and a client expecting as many units accepts the reply
/// unchanged.
pub proof fn lemma_reply_is_accepted(
    units: Seq<Seq<char>>,
    outcome: Result<Seq<Seq<char>>, String>,
)
    ensures
        reply(units, outcome) matches Ok(v) ==> {
            &&& v.len() == units.len()
            &&& outcome is Ok
            &&& forall|i: int| 0 <= i < units.len() && units[i].len() == 0 ==> (#[trigger] v[i]).len() == 0
            &&& forall|i: int|
                0 <= i < units.len() && units[i].len() != 0 ==> #[trigger] v[i] == outcome->Ok_0[i]
            &&& accepted(units.len(), v) == Ok::<Seq<Seq<char>>, TranslateError>(v)
        },
{
}

} // verus!

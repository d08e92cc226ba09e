//! The argument list of a directive: identifiers separated by commas, with
//! an optional comma after the last one.

use vstd::prelude::*;
use crate::error::{Error, ErrorKind};
use crate::source::{token_models, ArgumentToken, Position, TokenKind, TokenModel};

verus! {

/// One requested capability: the identifier as written, and where.
#[derive(Clone, Debug, PartialEq, Eq)]
pub struct Request {
    pub name: String,
    pub position: Position,
}

/// A request as a plain value.
pub ghost struct RequestModel {
    pub name: Seq<char>,
    pub position: Position,
}

impl View for Request {
    type V = RequestModel;

    open spec fn view(&self) -> RequestModel {
        RequestModel { name: self.name@, position: self.position }
    }
}

/// The requests of a vector, each as a plain value.
pub open spec fn request_models(requests: Seq<Request>) -> Seq<RequestModel> {
    Seq::new(requests.len(), |i: int| requests[i]@)
}

/// Whether the token at `i` is what the grammar wants there: an identifier
/// at an even place, a comma at an odd one.
pub open spec fn fits(tokens: Seq<TokenModel>, i: int) -> bool {
    if i % 2 == 0 {
        tokens[i].kind == TokenKind::Identifier
    } else {
        tokens[i].kind == TokenKind::Comma
    }
}

/// Whether every token before `n` fits.
pub open spec fn fits_before(tokens: Seq<TokenModel>, n: int) -> bool {
    forall|j: int| 0 <= j < n ==> fits(tokens, j)
}

/// Whether `i` is the first token that does not fit.
pub open spec fn is_first_misfit(tokens: Seq<TokenModel>, i: int) -> bool {
    0 <= i < tokens.len() && !fits(tokens, i) && fits_before(tokens, i)
}

/// The identifiers of a well-formed list, in order: the tokens at the even
/// places.
pub open spec fn requested(tokens: Seq<TokenModel>) -> Seq<RequestModel> {
    Seq::new(
        ((tokens.len() + 1) / 2) as nat,
        |k: int| RequestModel { name: tokens[2 * k].text, position: tokens[2 * k].position },
    )
}

/// What reading an argument list gives: the requests, or a failure at the
/// first token that does not fit.
pub open spec fn arguments_outcome(tokens: Seq<TokenModel>) -> Result<Seq<RequestModel>, Error> {
    if fits_before(tokens, tokens.len() as int) {
        Ok(requested(tokens))
    } else {
        let i = choose|i: int| is_first_misfit(tokens, i);
        Err(Error { kind: ErrorKind::MalformedArgumentList, position: tokens[i].position })
    }
}

/// There is at most one first misfit.
pub proof fn first_misfit_is_unique(tokens: Seq<TokenModel>, i: int, j: int)
    requires
        is_first_misfit(tokens, i),
        is_first_misfit(tokens, j),
    ensures
        i == j,
{
    if i < j {
        assert(fits(tokens, i));
    } else if j < i {
        assert(fits(tokens, j));
    }
}

/// Reads an argument list as identifiers separated by commas.
pub fn parse_arguments(tokens: &Vec<ArgumentToken>) -> (result: Result<Vec<Request>, Error>)
    ensures
        match result {
            Ok(requests) => arguments_outcome(token_models(tokens@)) == Ok::<Seq<RequestModel>, Error>(
                request_models(requests@),
            ),
            Err(e) => arguments_outcome(token_models(tokens@)) == Err::<Seq<RequestModel>, Error>(e),
        },
{
    let ghost models = token_models(tokens@);
    let mut requests: Vec<Request> = Vec::new();
    let mut i: usize = 0;
    while i < tokens.len()
        invariant
            0 <= i <= tokens.len(),
            models == token_models(tokens@),
            fits_before(models, i as int),
            requests.len() == (i + 1) / 2,
            forall|k: int|
                0 <= k < requests.len() ==> #[trigger] requests[k]@ == requested(models)[k],
        decreases tokens.len() - i,
    {
        let token = &tokens[i];
        assert(models[i as int] == token@);
        let wanted = if i % 2 == 0 {
            TokenKind::Identifier
        } else {
            TokenKind::Comma
        };
        if token.kind != wanted {
            proof {
                assert(is_first_misfit(models, i as int));
                let c = choose|c: int| is_first_misfit(models, c);
                first_misfit_is_unique(models, i as int, c);
            }
            return Err(Error { kind: ErrorKind::MalformedArgumentList, position: token.position });
        }
        if i % 2 == 0 {
            requests.push(Request { name: token.text.clone(), position: token.position });
        }
        i = i + 1;
    }
    proof {
        assert(request_models(requests@) =~= requested(models));
    }
    Ok(requests)
}

} // verus!

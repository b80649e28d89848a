//! What can go wrong with a JSON-RPC call to a provider.

use crate::text::push_signed_decimal;
use vstd::prelude::*;
use vstd::std_specs::convert::{FromSpec, FromSpecImpl};

verus! {

/// The error of one call to one provider. `H` is what the layer that performs
/// HTTPS outcalls reports of a failed one.
#[derive(Clone, Debug, PartialEq, Eq)]
pub enum RpcError<H> {
    /// The provider was not called.
    ProviderError(ProviderError),
    /// The HTTPS outcall failed.
    HttpOutcallError(HttpOutcallError<H>),
    /// The provider answered with a JSON-RPC error.
    JsonRpcError(JsonRpcError),
    /// A request or a response is not in the expected format.
    ValidationError(ValidationError),
}

/// Why a provider was not called.
#[derive(Clone, Debug, PartialEq, Eq)]
pub enum ProviderError {
    NoPermission,
    TooFewCycles { expected: u128, received: u128 },
    ProviderNotFound,
    MissingRequiredProvider,
}

/// Why a request or a response is malformed.
#[derive(Clone, Hash, Debug, PartialEq, Eq, PartialOrd, Ord)]
pub enum ValidationError {
    Custom(String),
    InvalidHex(String),
    UrlParseError(String),
    HostNotAllowed(String),
    CredentialPathNotAllowed,
    CredentialHeaderNotAllowed,
}

/// The error object of a JSON-RPC response.
#[derive(Clone, Hash, Debug, PartialEq, Eq, PartialOrd, Ord)]
pub struct JsonRpcError {
    pub code: i64,
    pub message: String,
}

/// A failed HTTPS outcall, as the layer that performed it reports it.
#[derive(Clone, Debug, PartialEq, Eq)]
pub struct HttpOutcallError<H>(pub H);

impl JsonRpcError {
    /// The text that the error is shown as.
    pub open spec fn text(self) -> Seq<char> {
        "code "@ + crate::text::signed_decimal(self.code as int) + ": "@ + self.message@
    }

    /// The error as it is shown to a reader.
    pub fn display(&self) -> (shown: String)
        ensures
            shown@ == self.text(),
            shown@ == "code "@ + crate::text::signed_decimal(self.code as int) + ": "@
                + self.message@,
    {
        let mut shown = "code ".to_owned();
        push_signed_decimal(&mut shown, self.code);
        shown.append(": ");
        shown.append(self.message.as_str());
        shown
    }
}

impl<H> From<ProviderError> for RpcError<H> {
    fn from(err: ProviderError) -> (wrapped: Self)
        ensures
            wrapped == RpcError::<H>::ProviderError(err),
    {
        RpcError::ProviderError(err)
    }
}

impl<H> FromSpecImpl<ProviderError> for RpcError<H> {
    open spec fn obeys_from_spec() -> bool {
        true
    }

    open spec fn from_spec(err: ProviderError) -> Self {
        RpcError::ProviderError(err)
    }
}

impl<H> From<HttpOutcallError<H>> for RpcError<H> {
    fn from(err: HttpOutcallError<H>) -> (wrapped: Self)
        ensures
            wrapped == RpcError::<H>::HttpOutcallError(err),
    {
        RpcError::HttpOutcallError(err)
    }
}

impl<H> FromSpecImpl<HttpOutcallError<H>> for RpcError<H> {
    open spec fn obeys_from_spec() -> bool {
        true
    }

    open spec fn from_spec(err: HttpOutcallError<H>) -> Self {
        RpcError::HttpOutcallError(err)
    }
}

impl<H> From<JsonRpcError> for RpcError<H> {
    fn from(err: JsonRpcError) -> (wrapped: Self)
        ensures
            wrapped == RpcError::<H>::JsonRpcError(err),
    {
        RpcError::JsonRpcError(err)
    }
}

impl<H> FromSpecImpl<JsonRpcError> for RpcError<H> {
    open spec fn obeys_from_spec() -> bool {
        true
    }

    open spec fn from_spec(err: JsonRpcError) -> Self {
        RpcError::JsonRpcError(err)
    }
}

impl<H> From<ValidationError> for RpcError<H> {
    fn from(err: ValidationError) -> (wrapped: Self)
        ensures
            wrapped == RpcError::<H>::ValidationError(err),
    {
        RpcError::ValidationError(err)
    }
}

impl<H> FromSpecImpl<ValidationError> for RpcError<H> {
    open spec fn obeys_from_spec() -> bool {
        true
    }

    open spec fn from_spec(err: ValidationError) -> Self {
        RpcError::ValidationError(err)
    }
}

/// An error becomes the call error of its own kind, with nothing lost.
pub proof fn law_conversions<H>(
    provider: ProviderError,
    outcall: HttpOutcallError<H>,
    json_rpc: JsonRpcError,
    validation: ValidationError,
)
    ensures
        <RpcError<H> as FromSpec<ProviderError>>::from_spec(provider) == RpcError::<
            H,
        >::ProviderError(provider),
        <RpcError<H> as FromSpec<HttpOutcallError<H>>>::from_spec(outcall) == RpcError::<
            H,
        >::HttpOutcallError(outcall),
        <RpcError<H> as FromSpec<JsonRpcError>>::from_spec(json_rpc) == RpcError::<
            H,
        >::JsonRpcError(json_rpc),
        <RpcError<H> as FromSpec<ValidationError>>::from_spec(validation) == RpcError::<
            H,
        >::ValidationError(validation),
{
}

/// A JSON-RPC error is shown by its code and its message.
pub proof fn law_json_rpc_error_text(error: JsonRpcError)
    ensures
        error.text() == "code "@ + crate::text::signed_decimal(error.code as int) + ": "@
            + error.message@,
{
}

} // verus!

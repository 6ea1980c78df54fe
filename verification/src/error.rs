//! What can go wrong while a transaction is planned.
use crate::ckb::{size_error_text, size_text};
use crate::hexadecimal::{hex_error_text, hex_text, HexError};
use vstd::prelude::*;
use vstd::string::StringExecFns;

verus! {

/// Why a configured hash is no hash.
#[derive(Clone, Copy, Debug, PartialEq, Eq, Structural)]
pub enum FieldError {
    /// Its text is not hexadecimal.
    Hex(HexError),
    /// It has another number of bytes than a hash.
    Size { expected: usize, actual: usize },
}

/// Why a transaction cannot be planned.
#[derive(Debug)]
pub enum Error {
    /// The transaction hash of a configured cell dep is invalid.
    Outpoint(FieldError),
    /// The code hash of a configured script is invalid.
    CodeHash(FieldError),
    /// The source of an Ethereum header is not hexadecimal.
    HeaderHex(HexError),
    /// An Ethereum header could not be serialized.
    HeaderRlp(String),
    /// A stored header has no hash that could be read.
    MalformedHeader(String),
    /// A node did not answer as it should.
    Rpc(String),
    /// The node knows no genesis block.
    GenesisBlockMissing,
    /// The genesis block does not hold what it should.
    GenesisInfo(String),
    /// No live cell was found to depend on.
    CellDepMissing,
    /// No live cell was found.
    CellNotFound,
    /// A CKB header could not be fetched.
    HeaderFetch(String),
    /// A CKB header does not exist.
    HeaderMissing,
    /// The bridge cell named by a lock event belongs to someone else.
    ForeignBridgeCell,
    /// The contracts are not deployed.
    NotDeployed,
    /// A transaction could not be signed.
    Signing(String),
}

/// An error with its texts taken as sequences of characters.
pub enum ErrorModel {
    Outpoint(FieldError),
    CodeHash(FieldError),
    HeaderHex(HexError),
    HeaderRlp(Seq<char>),
    MalformedHeader(Seq<char>),
    Rpc(Seq<char>),
    GenesisBlockMissing,
    GenesisInfo(Seq<char>),
    CellDepMissing,
    CellNotFound,
    HeaderFetch(Seq<char>),
    HeaderMissing,
    ForeignBridgeCell,
    NotDeployed,
    Signing(Seq<char>),
}

impl View for Error {
    type V = ErrorModel;

    open spec fn view(&self) -> ErrorModel {
        match *self {
            Error::Outpoint(e) => ErrorModel::Outpoint(e),
            Error::CodeHash(e) => ErrorModel::CodeHash(e),
            Error::HeaderHex(e) => ErrorModel::HeaderHex(e),
            Error::HeaderRlp(s) => ErrorModel::HeaderRlp(s@),
            Error::MalformedHeader(s) => ErrorModel::MalformedHeader(s@),
            Error::Rpc(s) => ErrorModel::Rpc(s@),
            Error::GenesisBlockMissing => ErrorModel::GenesisBlockMissing,
            Error::GenesisInfo(s) => ErrorModel::GenesisInfo(s@),
            Error::CellDepMissing => ErrorModel::CellDepMissing,
            Error::CellNotFound => ErrorModel::CellNotFound,
            Error::HeaderFetch(s) => ErrorModel::HeaderFetch(s@),
            Error::HeaderMissing => ErrorModel::HeaderMissing,
            Error::ForeignBridgeCell => ErrorModel::ForeignBridgeCell,
            Error::NotDeployed => ErrorModel::NotDeployed,
            Error::Signing(s) => ErrorModel::Signing(s@),
        }
    }
}

/// The text that says why a configured hash is no hash.
pub open spec fn field_text(e: FieldError) -> Seq<char> {
    match e {
        FieldError::Hex(e) => hex_text(e),
        FieldError::Size { expected, actual } => size_text(expected as nat, actual as nat),
    }
}

/// The text of an error. What a node or another part said is kept as it is.
pub open spec fn error_text(e: ErrorModel) -> Seq<char> {
    match e {
        ErrorModel::Outpoint(e) => "invalid OutpointConf config. err: "@ + field_text(e),
        ErrorModel::CodeHash(e) => field_text(e),
        ErrorModel::HeaderHex(e) => hex_text(e),
        ErrorModel::HeaderRlp(s) => s,
        ErrorModel::MalformedHeader(s) => s,
        ErrorModel::Rpc(s) => s,
        ErrorModel::GenesisBlockMissing => "Can not get genesis block?"@,
        ErrorModel::GenesisInfo(s) => s,
        ErrorModel::CellDepMissing => "no cell found for cell dep"@,
        ErrorModel::CellNotFound => "cell not found"@,
        ErrorModel::HeaderFetch(s) => "failed to get header: "@ + s,
        ErrorModel::HeaderMissing => "failed to get header which is none"@,
        ErrorModel::ForeignBridgeCell =>
            "only support use bridge cell we created as lock outpoint"@,
        ErrorModel::NotDeployed => "contracts should be deployed"@,
        ErrorModel::Signing(s) => "failed to sign tx : "@ + s,
    }
}

impl FieldError {
    /// Says why a configured hash is no hash.
    pub fn message(&self) -> (r: String)
        ensures
            r@ == field_text(*self),
    {
        match self {
            FieldError::Hex(e) => hex_error_text(e),
            FieldError::Size { expected, actual } => size_error_text(*expected, *actual),
        }
    }
}

impl Error {
    /// Says what went wrong.
    pub fn message(&self) -> (r: String)
        ensures
            r@ == error_text(self@),
    {
        match self {
            Error::Outpoint(e) => "invalid OutpointConf config. err: ".to_owned().concat(
                e.message().as_str(),
            ),
            Error::CodeHash(e) => e.message(),
            Error::HeaderHex(e) => hex_error_text(e),
            Error::HeaderRlp(s) => s.clone(),
            Error::MalformedHeader(s) => s.clone(),
            Error::Rpc(s) => s.clone(),
            Error::GenesisBlockMissing => "Can not get genesis block?".to_owned(),
            Error::GenesisInfo(s) => s.clone(),
            Error::CellDepMissing => "no cell found for cell dep".to_owned(),
            Error::CellNotFound => "cell not found".to_owned(),
            Error::HeaderFetch(s) => "failed to get header: ".to_owned().concat(s.as_str()),
            Error::HeaderMissing => "failed to get header which is none".to_owned(),
            Error::ForeignBridgeCell =>
                "only support use bridge cell we created as lock outpoint".to_owned(),
            Error::NotDeployed => "contracts should be deployed".to_owned(),
            Error::Signing(s) => "failed to sign tx : ".to_owned().concat(s.as_str()),
        }
    }
}

/// What a node or another part said is in the error's text, unchanged and up to
/// its end; behind a fixed text where a header was fetched or a transaction
/// signed, and else alone. So it is with the reason why a hash is none.
pub proof fn law_error_text_keeps_what_was_said(said: Seq<char>, e: FieldError, h: HexError)
    ensures
        error_text(ErrorModel::HeaderRlp(said)) == said,
        error_text(ErrorModel::MalformedHeader(said)) == said,
        error_text(ErrorModel::Rpc(said)) == said,
        error_text(ErrorModel::GenesisInfo(said)) == said,
        error_text(ErrorModel::HeaderFetch(said)) == "failed to get header: "@ + said,
        error_text(ErrorModel::Signing(said)) == "failed to sign tx : "@ + said,
        error_text(ErrorModel::CodeHash(e)) == field_text(e),
        error_text(ErrorModel::Outpoint(e)) == "invalid OutpointConf config. err: "@
            + error_text(ErrorModel::CodeHash(e)),
        error_text(ErrorModel::HeaderHex(h)) == hex_text(h),
        error_text(ErrorModel::CodeHash(FieldError::Hex(h))) == hex_text(h),
{
}

/// The model of a result: of its value, or of its error.
pub open spec fn result_model<T: View>(r: Result<T, Error>) -> Result<T::V, ErrorModel> {
    match r {
        Ok(value) => Ok(value@),
        Err(error) => Err(error@),
    }
}

/// The model of an error leaves nothing out: it is of the same kind and holds the
/// same reason or text.
pub proof fn law_error_model_is_complete(e: Error)
    ensures
        match e {
            Error::Outpoint(f) => e@ is Outpoint && e@->Outpoint_0 == f,
            Error::CodeHash(f) => e@ is CodeHash && e@->CodeHash_0 == f,
            Error::HeaderHex(h) => e@ is HeaderHex && e@->HeaderHex_0 == h,
            Error::HeaderRlp(s) => e@ is HeaderRlp && e@->HeaderRlp_0 == s@,
            Error::MalformedHeader(s) => e@ is MalformedHeader && e@->MalformedHeader_0 == s@,
            Error::Rpc(s) => e@ is Rpc && e@->Rpc_0 == s@,
            Error::GenesisBlockMissing => e@ is GenesisBlockMissing,
            Error::GenesisInfo(s) => e@ is GenesisInfo && e@->GenesisInfo_0 == s@,
            Error::CellDepMissing => e@ is CellDepMissing,
            Error::CellNotFound => e@ is CellNotFound,
            Error::HeaderFetch(s) => e@ is HeaderFetch && e@->HeaderFetch_0 == s@,
            Error::HeaderMissing => e@ is HeaderMissing,
            Error::ForeignBridgeCell => e@ is ForeignBridgeCell,
            Error::NotDeployed => e@ is NotDeployed,
            Error::Signing(s) => e@ is Signing && e@->Signing_0 == s@,
        },
{
}

/// The model of a result is that of its value, or that of its error.
pub proof fn law_result_model_is_complete<T: View>(r: Result<T, Error>)
    ensures
        r is Ok <==> result_model(r) is Ok,
        r is Ok ==> result_model(r)->Ok_0 == r->Ok_0@,
        r is Err ==> result_model(r)->Err_0 == r->Err_0@,
{
}

} // verus!

//! Validation of signed settlement requests on the node's side: the
//! transport headers, the account they are checked against, and the
//! signature's signer.

use crate::contracts::{Account, ContractConfig};
use crate::crypto::{keccak256, recovered_signer, recover_signer_address};
use crate::encoding::{
    hex_decode, hex_decoded, hex_lower, lemma_prefixed_hex_decodes_up_to_case,
    lemma_u64_text_round_trip, parse_u64, parsed_u64, same_up_to_case,
};
use crate::error::{ClientError, ValidationError};
use crate::primitives::{checksummed, lemma_checksummed_up_to_case, parsed_address, Address};
use crate::settlement::{
    headers_view, is_signature_text_by, settlement_message, signature_headers, SettlementRequest,
    SettlementSignature,
};
use vstd::prelude::*;

verus! {

pub const USER_HEADER: &'static str = "X-LazAI-User";

pub const NONCE_HEADER: &'static str = "X-LazAI-Nonce";

pub const SIGNATURE_HEADER: &'static str = "X-LazAI-Signature";

pub const TOKEN_ID_HEADER: &'static str = "X-LazAI-Token-ID";

pub const FILE_ID_HEADER: &'static str = "X-LazAI-File-ID";

/// The role of the node that a request invokes; each has its own accounts.
#[derive(Debug, Clone, Copy, PartialEq, Eq)]
pub enum RequestType {
    Query,
    Inference,
    Training,
}

impl RequestType {
    /// The contract that holds the accounts of this request type.
    pub fn account_contract(&self, config: &ContractConfig) -> (r: Address)
        ensures
            r == match self {
                RequestType::Query => config.query_address,
                RequestType::Inference => config.inference_address,
                RequestType::Training => config.training_address,
            },
    {
        match self {
            RequestType::Query => config.query_address,
            RequestType::Inference => config.inference_address,
            RequestType::Training => config.training_address,
        }
    }
}

/// The value of the last header named `name`, as a map built from the pairs
/// in order would hold it.
pub open spec fn header_value(h: Seq<(Seq<char>, Seq<char>)>, name: Seq<char>) -> Option<
    Seq<char>,
>
    decreases h.len(),
{
    if h.len() == 0 {
        None
    } else if h.last().0 == name {
        Some(h.last().1)
    } else {
        header_value(h.drop_last(), name)
    }
}

/// What a node reads from the headers of a request: the claimed user, the
/// nonce and the signature text, or the first thing missing or malformed.
pub open spec fn parsed_claim(h: Seq<(Seq<char>, Seq<char>)>) -> Result<
    (Seq<u8>, u64, Seq<char>),
    ValidationError,
> {
    match header_value(h, USER_HEADER@) {
        None => Err(ValidationError::MissingUser),
        Some(u) => match parsed_address(u) {
            None => Err(ValidationError::MalformedUser),
            Some(user) => match header_value(h, NONCE_HEADER@) {
                None => Err(ValidationError::MissingNonce),
                Some(n) => match parsed_u64(n) {
                    None => Err(ValidationError::MalformedNonce),
                    Some(nonce) => match header_value(h, SIGNATURE_HEADER@) {
                        None => Err(ValidationError::MissingSignature),
                        Some(sig) => Ok((user, nonce, sig)),
                    },
                },
            },
        },
    }
}

/// The outcome of checking a claimed `(user, nonce, signature)` against the
/// account loaded for `(user, node)`: the account must be the user's, the
/// nonce strictly greater than the account's, and the signature over the
/// settlement tuple must recover to the user.
pub open spec fn validation_outcome(
    account: Account,
    node: Seq<u8>,
    user: Seq<u8>,
    nonce: u64,
    signature: Seq<char>,
) -> Result<(), ValidationError> {
    if account.user@ != user {
        Err(ValidationError::UnknownAccount)
    } else if account.nonce@ >= nonce {
        Err(ValidationError::StaleNonce { nonce, last: account.nonce })
    } else {
        match hex_decoded(signature) {
            None => Err(ValidationError::MalformedSignature),
            Some(sig) => match recovered_signer(sig, settlement_message(nonce, user, node)) {
                None => Err(ValidationError::MalformedSignature),
                Some(signer) => if signer == user {
                    Ok(())
                } else {
                    Err(ValidationError::SignerMismatch)
                },
            },
        }
    }
}

/// A validation outcome as the client reports it.
pub open spec fn as_client_result(r: Result<(), ValidationError>) -> Result<(), ClientError> {
    match r {
        Ok(()) => Ok(()),
        Err(e) => Err(ClientError::ValidationError(e)),
    }
}

/// What a node reads from the headers of a request.
#[derive(Debug, Clone)]
pub struct SettlementClaim {
    pub user: Address,
    pub nonce: u64,
    pub signature: String,
}

/// The value of the last header named `name`.
fn find_header(headers: &Vec<(String, String)>, name: &str) -> (r: Option<String>)
    ensures
        match r {
            Some(v) => header_value(headers_view(headers@), name@) == Some(v@),
            None => header_value(headers_view(headers@), name@) is None,
        },
{
    let ghost hv = headers_view(headers@);
    let key = name.to_owned();
    let mut i: usize = headers.len();
    assert(hv.subrange(0, i as int) =~= hv);
    while i > 0
        invariant
            i <= headers@.len(),
            hv == headers_view(headers@),
            key@ == name@,
            header_value(hv, name@) == header_value(hv.subrange(0, i as int), name@),
        decreases i,
    {
        let ghost pre = hv.subrange(0, i as int);
        assert(pre.drop_last() =~= hv.subrange(0, i - 1));
        assert(pre.last() == hv[i - 1]);
        if headers[i - 1].0 == key {
            return Some(headers[i - 1].1.clone());
        }
        i = i - 1;
    }
    assert(hv.subrange(0, 0).len() == 0);
    None
}

/// Reads the claimed user, nonce and signature from the headers of a request.
pub fn parse_request_headers(headers: &Vec<(String, String)>) -> (r: Result<
    SettlementClaim,
    ClientError,
>)
    ensures
        match parsed_claim(headers_view(headers@)) {
            Ok((user, nonce, sig)) => r matches Ok(c) && c.user@ == user && c.nonce == nonce
                && c.signature@ == sig,
            Err(e) => r == Err::<SettlementClaim, ClientError>(ClientError::ValidationError(e)),
        },
{
    let user = match find_header(headers, USER_HEADER) {
        None => { return Err(ClientError::ValidationError(ValidationError::MissingUser)) },
        Some(text) => match Address::parse(text.as_str()) {
            Ok(user) => user,
            Err(_) => { return Err(ClientError::ValidationError(ValidationError::MalformedUser))
            },
        },
    };
    let nonce = match find_header(headers, NONCE_HEADER) {
        None => { return Err(ClientError::ValidationError(ValidationError::MissingNonce)) },
        Some(text) => match parse_u64(text.as_str()) {
            Ok(nonce) => nonce,
            Err(_) => { return Err(ClientError::ValidationError(ValidationError::MalformedNonce))
            },
        },
    };
    let signature = match find_header(headers, SIGNATURE_HEADER) {
        None => { return Err(ClientError::ValidationError(ValidationError::MissingSignature)) },
        Some(text) => text,
    };
    Ok(SettlementClaim { user, nonce, signature })
}

/// Recovers the signer of a `0x`-prefixed hexadecimal signature over the
/// settlement tuple `(nonce, user, node)`.
fn recover_address(nonce: u64, user: &Address, node: &Address, signature: &str) -> (r: Result<
    Address,
    ClientError,
>)
    ensures
        match hex_decoded(signature@) {
            None => r == Err::<Address, ClientError>(
                ClientError::ValidationError(ValidationError::MalformedSignature),
            ),
            Some(sig) => match recovered_signer(sig, settlement_message(nonce, user@, node@)) {
                None => r == Err::<Address, ClientError>(
                    ClientError::ValidationError(ValidationError::MalformedSignature),
                ),
                Some(a) => r matches Ok(x) && x@ == a,
            },
        },
{
    let request = SettlementRequest { nonce, user: *user, node: *node, file_id: None };
    let encoded = request.abi_encode();
    let message_hash = keccak256(encoded.as_slice());
    let signature_bytes = match hex_decode(signature) {
        Ok(b) => b,
        Err(_) => {
            return Err(ClientError::ValidationError(ValidationError::MalformedSignature));
        },
    };
    match recover_signer_address(signature_bytes.as_slice(), message_hash.as_slice()) {
        Ok(a) => Ok(a),
        Err(_) => Err(ClientError::ValidationError(ValidationError::MalformedSignature)),
    }
}

/// Checks a claimed user, nonce and signature against the account that the
/// chain holds for `(user, node)`, where `node` is this node's address.
pub fn validate_account_and_signature(
    account: &Account,
    node: &Address,
    user: &Address,
    nonce: u64,
    signature: &str,
) -> (r: Result<(), ClientError>)
    ensures
        r == as_client_result(validation_outcome(*account, node@, user@, nonce, signature@)),
{
    if account.user != *user {
        return Err(ClientError::ValidationError(ValidationError::UnknownAccount));
    }
    if account.nonce.ge_u64(nonce) {
        return Err(
            ClientError::ValidationError(ValidationError::StaleNonce { nonce, last: account.nonce }),
        );
    }
    let recovered = recover_address(nonce, user, node, signature)?;
    if recovered != *user {
        return Err(ClientError::ValidationError(ValidationError::SignerMismatch));
    }
    Ok(())
}

/// Validates a request from its headers, against the account that the
/// chain holds for the claimed user and this node.
pub fn validate_request(headers: &Vec<(String, String)>, account: &Account, node: &Address) -> (r:
    Result<(), ClientError>)
    ensures
        r == match parsed_claim(headers_view(headers@)) {
            Ok((user, nonce, sig)) => as_client_result(
                validation_outcome(*account, node@, user, nonce, sig),
            ),
            Err(e) => Err(ClientError::ValidationError(e)),
        },
{
    let claim = parse_request_headers(headers)?;
    validate_account_and_signature(account, node, &claim.user, claim.nonce, claim.signature.as_str())
}

/// A request is accepted only if the account is the user's, the nonce is
/// strictly greater than the account's, and the signature over the tuple
/// `(nonce, user, node)` recovers to the user.
pub proof fn lemma_accepted_request_is_signed_by_user(
    account: Account,
    node: Seq<u8>,
    user: Seq<u8>,
    nonce: u64,
    signature: Seq<char>,
)
    requires
        validation_outcome(account, node, user, nonce, signature) is Ok,
    ensures
        account.user@ == user,
        account.nonce@ < nonce,
        exists|sig: Seq<u8>|
            hex_decoded(signature) == Some(sig) && recovered_signer(
                sig,
                settlement_message(nonce, user, node),
            ) == Some(user),
{
    let sig = hex_decoded(signature)->Some_0;
    assert(hex_decoded(signature) == Some(sig));
}

/// A request signed by the account's user, with a nonce strictly greater
/// than the account's, is accepted.
pub proof fn lemma_signed_fresh_request_is_accepted(
    account: Account,
    node: Seq<u8>,
    user: Seq<u8>,
    nonce: u64,
    signature: Seq<char>,
)
    requires
        account.user@ == user,
        account.nonce@ < nonce,
        is_signature_text_by(signature, settlement_message(nonce, user, node), user),
    ensures
        validation_outcome(account, node, user, nonce, signature) == Ok::<(), ValidationError>(()),
{
    let msg = settlement_message(nonce, user, node);
    let sig = choose|sig: Seq<u8>|
        #![trigger hex_lower(sig)]
        signature == seq!['0', 'x'] + hex_lower(sig) && sig.len() == 65 && recovered_signer(
            sig,
            msg,
        ) == Some(user);
    lemma_prefixed_hex_decodes_up_to_case(sig, signature);
}

/// A nonce that is not strictly greater than the account's is rejected,
/// whatever the signature.
pub proof fn lemma_stale_nonce_is_rejected(
    account: Account,
    node: Seq<u8>,
    user: Seq<u8>,
    nonce: u64,
    signature: Seq<char>,
)
    requires
        account.nonce@ >= nonce,
    ensures
        validation_outcome(account, node, user, nonce, signature) is Err,
        account.user@ == user ==> validation_outcome(account, node, user, nonce, signature) == Err::<
            (),
            ValidationError,
        >(ValidationError::StaleNonce { nonce, last: account.nonce }),
{
}

/// Validation is a function of its inputs and of the account's user and
/// nonce: run again on the same inputs and unchanged chain state, it gives
/// the same outcome.
pub proof fn lemma_validation_is_repeatable(
    account: Account,
    again: Account,
    node: Seq<u8>,
    user: Seq<u8>,
    nonce: u64,
    signature: Seq<char>,
)
    requires
        again.user == account.user,
        again.nonce == account.nonce,
    ensures
        validation_outcome(again, node, user, nonce, signature) == validation_outcome(
            account,
            node,
            user,
            nonce,
            signature,
        ),
{
}

/// A signed request survives its transport headers: a node reads back the
/// same user, nonce and signature text, and the signature recovers, over the
/// tuple rebuilt with the node's address, to the key that signed it; signed
/// by the user, it is accepted against any account of the user with a lower
/// nonce.
pub proof fn lemma_signed_request_round_trip(
    request: SettlementRequest,
    signer: Seq<u8>,
    signed: SettlementSignature,
    headers: Seq<(Seq<char>, Seq<char>)>,
)
    requires
        signed.user == request.user,
        signed.nonce == request.nonce,
        signed.file_id == request.file_id,
        is_signature_text_by(
            signed.signature@,
            settlement_message(request.nonce, request.user@, request.node@),
            signer,
        ),
        headers == signature_headers(signed),
    ensures
        parsed_claim(headers) == Ok::<(Seq<u8>, u64, Seq<char>), ValidationError>(
            (request.user@, request.nonce, signed.signature@),
        ),
        exists|sig: Seq<u8>|
            hex_decoded(signed.signature@) == Some(sig) && recovered_signer(
                sig,
                settlement_message(request.nonce, request.user@, request.node@),
            ) == Some(signer),
        signer == request.user@ ==> forall|account: Account|
            account.user@ == request.user@ && account.nonce@ < request.nonce ==> #[trigger] validation_outcome(
                account,
                request.node@,
                request.user@,
                request.nonce,
                signed.signature@,
            ) == Ok::<(), ValidationError>(()),
{
    lemma_checksummed_up_to_case(request.user@);
    if signer == request.user@ {
        assert forall|account: Account|
            account.user@ == request.user@ && account.nonce@ < request.nonce implies #[trigger] validation_outcome(
            account,
            request.node@,
            request.user@,
            request.nonce,
            signed.signature@,
        ) == Ok::<(), ValidationError>(()) by {
            lemma_signed_fresh_request_is_accepted(
                account,
                request.node@,
                request.user@,
                request.nonce,
                signed.signature@,
            );
        }
    }
    reveal_strlit("X-LazAI-User");
    reveal_strlit("X-LazAI-Nonce");
    reveal_strlit("X-LazAI-Signature");
    reveal_strlit("X-LazAI-File-ID");
    reveal_with_fuel(header_value, 5);
    let msg = settlement_message(request.nonce, request.user@, request.node@);
    let sig = choose|sig: Seq<u8>|
        #![trigger hex_lower(sig)]
        signed.signature@ == seq!['0', 'x'] + hex_lower(sig) && sig.len() == 65
            && recovered_signer(sig, msg) == Some(signer);
    lemma_prefixed_hex_decodes_up_to_case(sig, signed.signature@);
    lemma_prefixed_hex_decodes_up_to_case(request.user@, checksummed(request.user@));
    lemma_u64_text_round_trip(request.nonce);
    let base = seq![
        (USER_HEADER@, checksummed(signed.user@)),
        (NONCE_HEADER@, crate::encoding::decimal_digits(signed.nonce as nat)),
        (SIGNATURE_HEADER@, signed.signature@),
    ];
    assert(USER_HEADER@.len() == 12);
    assert(NONCE_HEADER@.len() == 13);
    assert(SIGNATURE_HEADER@.len() == 17);
    assert(FILE_ID_HEADER@.len() == 15);
    assert(USER_HEADER@ != NONCE_HEADER@);
    assert(USER_HEADER@ != SIGNATURE_HEADER@);
    assert(NONCE_HEADER@ != SIGNATURE_HEADER@);
    assert(FILE_ID_HEADER@ != USER_HEADER@);
    assert(FILE_ID_HEADER@ != NONCE_HEADER@);
    assert(FILE_ID_HEADER@ != SIGNATURE_HEADER@);
    match signed.file_id {
        Some(f) => {
            assert(headers.drop_last() =~= base);
            assert(base.drop_last().drop_last() =~= seq![base[0]]);
            assert(seq![base[0]].drop_last() =~= Seq::<(Seq<char>, Seq<char>)>::empty());
        },
        None => {
            assert(headers =~= base);
            assert(base.drop_last().drop_last() =~= seq![base[0]]);
            assert(seq![base[0]].drop_last() =~= Seq::<(Seq<char>, Seq<char>)>::empty());
        },
    }
}

} // verus!

//! What the account-validation framework provides to both programs: typed
//! accounts as the instruction sees them, the framework's own constraint
//! errors, and derivation of program addresses.

use vstd::prelude::*;

use crate::pubkey::Pubkey;

verus! {

/// The invocation context of an instruction: the id of the program that runs
/// it and its accounts.
pub struct Context<T> {
    pub program_id: Pubkey,
    pub accounts: T,
}

/// An account that signed the transaction.
#[derive(Clone, Copy, Debug)]
pub struct Signer {
    pub key: Pubkey,
    pub is_writable: bool,
}

/// An account whose data was deserialized as `T`.
#[derive(Clone, Debug)]
pub struct Account<T> {
    pub key: Pubkey,
    pub is_writable: bool,
    pub data: T,
}

/// An account whose contents the program does not read.
#[derive(Clone, Copy, Debug)]
pub struct UncheckedAccount {
    pub key: Pubkey,
}

/// An executable program account passed for a cross-program call.
#[derive(Clone, Copy, Debug)]
pub struct Program {
    pub key: Pubkey,
}

/// Constraint violations that the framework itself reports.
#[derive(Clone, Copy, Debug, PartialEq, Eq, Structural)]
pub enum FrameworkError {
    /// An account declared `mut` was not passed as writable.
    ConstraintMut,
    /// An account does not sit at the address its seeds derive.
    ConstraintSeeds,
    /// An account is closed into itself.
    ConstraintClose,
    /// One account is passed for two mutable accounts that the framework
    /// writes back.
    ConstraintDuplicateMutableAccount,
    /// No bump seed yields a program address for the given seeds; the
    /// program aborts.
    NoViableBump,
}

/// The error number of a framework error, as the framework reports it.
pub open spec fn framework_error_number(e: FrameworkError) -> Option<u32> {
    match e {
        FrameworkError::ConstraintMut => Some(2000),
        FrameworkError::ConstraintSeeds => Some(2006),
        FrameworkError::ConstraintClose => Some(2011),
        FrameworkError::ConstraintDuplicateMutableAccount => Some(2040),
        FrameworkError::NoViableBump => None,
    }
}

/// The framework's error number for a constraint violation.
///
/// Calls the `From<ErrorCode> for u32` conversion of `anchor_lang`; the
/// contract restates the numbers that `anchor_lang::error::ErrorCode`
/// assigns to these variants in its source.
#[verifier::external_body]
fn anchor_constraint_error_number(e: FrameworkError) -> (n: u32)
    requires
        e != FrameworkError::NoViableBump,
    ensures
        Some(n) == framework_error_number(e),
{
    let code = match e {
        FrameworkError::ConstraintMut => anchor_lang::error::ErrorCode::ConstraintMut,
        FrameworkError::ConstraintSeeds => anchor_lang::error::ErrorCode::ConstraintSeeds,
        FrameworkError::ConstraintClose => anchor_lang::error::ErrorCode::ConstraintClose,
        FrameworkError::ConstraintDuplicateMutableAccount => {
            anchor_lang::error::ErrorCode::ConstraintDuplicateMutableAccount
        },
        FrameworkError::NoViableBump => anchor_lang::error::ErrorCode::ConstraintSeeds,
    };
    u32::from(code)
}

impl FrameworkError {
    /// The error number reported for this error, if the framework has one.
    pub fn number(&self) -> (n: Option<u32>)
        ensures
            n == framework_error_number(*self),
    {
        match self {
            FrameworkError::NoViableBump => None,
            _ => Some(anchor_constraint_error_number(*self)),
        }
    }
}

/// The offset that the framework adds to a program's own error index.
///
/// Reads `anchor_lang::error::ERROR_CODE_OFFSET`, which its source defines
/// as 6000.
#[verifier::external_body]
pub(crate) fn custom_error_offset() -> (offset: u32)
    ensures
        offset == 6000,
{
    anchor_lang::error::ERROR_CODE_OFFSET
}

/// Why an instruction failed: a framework constraint, or an error of the
/// program itself.
#[derive(Clone, Copy, Debug, PartialEq, Eq)]
pub enum InstructionError<E> {
    Framework(FrameworkError),
    Program(E),
}

/// The address that `seeds` derive under `program_id`, or `None` where no
/// program address exists for them.
pub uninterp spec fn program_address(seeds: Seq<Seq<u8>>, program_id: Seq<u8>) -> Option<Seq<u8>>;

/// The first bump seed, trying 255 down to 1 (0 is never tried), for which
/// `seeds` followed by the bump derive a program address under
/// `program_id`, together with that address.
pub uninterp spec fn bumped_program_address(seeds: Seq<Seq<u8>>, program_id: Seq<u8>) -> Option<(Seq<u8>, u8)>;

/// The address of a found program address and bump.
pub open spec fn found_key(found: Option<(Seq<u8>, u8)>) -> Seq<u8> {
    match found {
        Some((key, _)) => key,
        None => Seq::empty(),
    }
}

/// The bump of a found program address and bump.
pub open spec fn found_bump(found: Option<(Seq<u8>, u8)>) -> u8 {
    match found {
        Some((_, bump)) => bump,
        None => 0,
    }
}

/// The views of a list of seeds.
pub open spec fn seeds_view(seeds: Seq<Vec<u8>>) -> Seq<Seq<u8>> {
    seeds.map_values(|s: Vec<u8>| s@)
}

/// Derives the program address of `seeds` (the bump included) under
/// `program_id`.
///
/// Calls `Pubkey::create_program_address`. Its result is a SHA-256 hash of
/// the seeds, the program id and a marker, refused where it lies on the
/// ed25519 curve; the contract names that result, and states what the source
/// shows plainly: more than 16 seeds, or a seed longer than 32 bytes, derive
/// nothing.
#[verifier::external_body]
pub(crate) fn create_program_address(seeds: &Vec<Vec<u8>>, program_id: &Pubkey) -> (addr: Option<Pubkey>)
    ensures
        addr is Some <==> program_address(seeds_view(seeds@), program_id@) is Some,
        addr matches Some(k) ==> program_address(seeds_view(seeds@), program_id@) == Some(k@),
        (seeds@.len() > 16 || exists|i: int| 0 <= i < seeds@.len() && seeds@[i]@.len() > 32) ==> addr is None,
{
    let slices: Vec<&[u8]> = seeds.iter().map(|s| s.as_slice()).collect();
    let id = anchor_lang::prelude::Pubkey::new_from_array(program_id.bytes);
    match anchor_lang::prelude::Pubkey::create_program_address(&slices, &id) {
        Ok(k) => Some(Pubkey { bytes: k.to_bytes() }),
        Err(_) => None,
    }
}

/// Searches the bump seeds 255 down to 1 for one that makes `seeds` derive
/// a program address under `program_id`.
///
/// Calls `Pubkey::try_find_program_address`. The contract names its result,
/// and states what the source shows of it: the search calls
/// `create_program_address` with the bump appended to the seeds, so a found
/// bump is at least 1 and, appended to the seeds, derives the found
/// address.
#[verifier::external_body]
pub(crate) fn find_program_address(seeds: &Vec<Vec<u8>>, program_id: &Pubkey) -> (found: Option<(Pubkey, u8)>)
    ensures
        found is Some <==> bumped_program_address(seeds_view(seeds@), program_id@) is Some,
        found matches Some(kb) ==> bumped_program_address(seeds_view(seeds@), program_id@) == Some((kb.0@, kb.1)),
        found matches Some(kb) ==> kb.1 >= 1 && program_address(
            seeds_view(seeds@).push(seq![kb.1]),
            program_id@,
        ) == Some(kb.0@),
{
    let slices: Vec<&[u8]> = seeds.iter().map(|s| s.as_slice()).collect();
    let id = anchor_lang::prelude::Pubkey::new_from_array(program_id.bytes);
    anchor_lang::prelude::Pubkey::try_find_program_address(&slices, &id)
        .map(|(k, bump)| (Pubkey { bytes: k.to_bytes() }, bump))
}

/// Whether `seeds` (the bump included) derive `key` under `program_id`.
pub(crate) fn derives_address(seeds: &Vec<Vec<u8>>, program_id: &Pubkey, key: &Pubkey) -> (derives: bool)
    ensures
        derives == (program_address(seeds_view(seeds@), program_id@) == Some(key@)),
{
    match create_program_address(seeds, program_id) {
        None => false,
        Some(addr) => addr.same_as(key),
    }
}

} // verus!

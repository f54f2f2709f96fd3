//! Deterministic record addresses: each record lives at the program-derived
//! address of seeds made from its identity fields.

use vstd::prelude::*;

use anchor_lang::prelude::Pubkey;

use crate::address::Address;
use vstd::string::StringSliceAdditionalSpecFns;

verus! {

/// The program-derived address and bump that the runtime assigns to a list of
/// seeds under a program id.
pub uninterp spec fn program_address_of(seeds: Seq<Seq<u8>>, program_id: Seq<u8>) -> Option<(Seq<u8>, u8)>;

/// The byte strings of a list of seeds.
pub open spec fn seeds_view(seeds: Seq<Vec<u8>>) -> Seq<Seq<u8>> {
    seeds.map_values(|s: Vec<u8>| s@)
}

/// Whether `r` is the derivation of `seeds` under `program_id`, or its absence.
pub open spec fn derived(r: Option<(Address, u8)>, seeds: Seq<Seq<u8>>, program_id: Seq<u8>) -> bool {
    match r {
        Some((a, b)) => program_address_of(seeds, program_id) == Some((a@, b)),
        None => program_address_of(seeds, program_id) is None,
    }
}

/// Relies on `Pubkey::try_find_program_address`: it hashes the seeds with the
/// program id and searches the bump from 255 down, so its answer (an address
/// and bump, or `None` when a seed is too long or no bump fits) depends on
/// those arguments alone.
#[verifier::external_body]
fn find_program_address(seeds: &Vec<Vec<u8>>, program_id: &Address) -> (r: Option<(Address, u8)>)
    ensures
        match r {
            Some((a, b)) => program_address_of(seeds_view(seeds@), program_id@) == Some((a@, b)),
            None => program_address_of(seeds_view(seeds@), program_id@) is None,
        },
{
    let refs: Vec<&[u8]> = seeds.iter().map(|s| s.as_slice()).collect();
    let program = Pubkey::new_from_array(program_id.bytes);
    Pubkey::try_find_program_address(&refs, &program).map(|(k, b)| (Address::new(k.to_bytes()), b))
}

/// The address of the academy program.
pub open spec fn academy_program_id() -> Seq<u8> {
    seq![
        37u8, 208u8, 191u8, 33u8, 170u8, 78u8, 119u8, 171u8, 216u8, 37u8, 124u8, 128u8, 27u8, 1u8,
        153u8, 236u8, 69u8, 227u8, 208u8, 156u8, 56u8, 35u8, 148u8, 6u8, 145u8, 62u8, 173u8, 147u8,
        21u8, 111u8, 116u8, 84u8,
    ]
}

/// The academy program's address, `3YchgRgR65gdRqgTZTM5qQXqtTZn5Kt2i6FPnZVu34Qb`.
pub fn program_id() -> (r: Address)
    ensures
        r@ == academy_program_id(),
{
    let r = Address::new(
        [
            37, 208, 191, 33, 170, 78, 119, 171, 216, 37, 124, 128, 27, 1, 153, 236, 69, 227, 208,
            156, 56, 35, 148, 6, 145, 62, 173, 147, 21, 111, 116, 84,
        ],
    );
    assert(r@ =~= academy_program_id());
    r
}

/// `b"config"`.
pub open spec fn config_seed() -> Seq<u8> {
    seq![99u8, 111u8, 110u8, 102u8, 105u8, 103u8]
}

/// `b"course"`.
pub open spec fn course_seed() -> Seq<u8> {
    seq![99u8, 111u8, 117u8, 114u8, 115u8, 101u8]
}

/// `b"enrollment"`.
pub open spec fn enrollment_seed() -> Seq<u8> {
    seq![101u8, 110u8, 114u8, 111u8, 108u8, 108u8, 109u8, 101u8, 110u8, 116u8]
}

/// `b"learner"`.
pub open spec fn learner_seed() -> Seq<u8> {
    seq![108u8, 101u8, 97u8, 114u8, 110u8, 101u8, 114u8]
}

fn config_seed_bytes() -> (r: Vec<u8>)
    ensures
        r@ == config_seed(),
{
    let r: Vec<u8> = vec![99u8, 111u8, 110u8, 102u8, 105u8, 103u8];
    assert(r@ =~= config_seed());
    r
}

fn course_seed_bytes() -> (r: Vec<u8>)
    ensures
        r@ == course_seed(),
{
    let r: Vec<u8> = vec![99u8, 111u8, 117u8, 114u8, 115u8, 101u8];
    assert(r@ =~= course_seed());
    r
}

fn enrollment_seed_bytes() -> (r: Vec<u8>)
    ensures
        r@ == enrollment_seed(),
{
    let r: Vec<u8> = vec![101u8, 110u8, 114u8, 111u8, 108u8, 108u8, 109u8, 101u8, 110u8, 116u8];
    assert(r@ =~= enrollment_seed());
    r
}

fn learner_seed_bytes() -> (r: Vec<u8>)
    ensures
        r@ == learner_seed(),
{
    let r: Vec<u8> = vec![108u8, 101u8, 97u8, 114u8, 110u8, 101u8, 114u8];
    assert(r@ =~= learner_seed());
    r
}

fn address_bytes(a: &Address) -> (r: Vec<u8>)
    ensures
        r@ == a@,
{
    vstd::slice::slice_to_vec(a.bytes.as_slice())
}

/// The address of the configuration record: seeds `[b"config"]`.
pub fn config_address(program_id: &Address) -> (r: Option<(Address, u8)>)
    ensures
        derived(r, seq![config_seed()], program_id@),
{
    let seeds: Vec<Vec<u8>> = vec![config_seed_bytes()];
    assert(seeds_view(seeds@) =~= seq![config_seed()]);
    find_program_address(&seeds, program_id)
}

/// The address of a course record: seeds `[b"course", course_id]`.
pub fn course_address(program_id: &Address, course_id: &str) -> (r: Option<(Address, u8)>)
    ensures
        derived(r, seq![course_seed(), course_id.spec_bytes()], program_id@),
{
    let seeds: Vec<Vec<u8>> = vec![course_seed_bytes(), vstd::slice::slice_to_vec(course_id.as_bytes())];
    assert(seeds_view(seeds@) =~= seq![course_seed(), course_id.spec_bytes()]);
    find_program_address(&seeds, program_id)
}

/// The address of an enrollment record: seeds
/// `[b"enrollment", course_id, learner]`.
pub fn enrollment_address(program_id: &Address, course_id: &str, learner: &Address) -> (r: Option<
    (Address, u8),
>)
    ensures
        derived(r, seq![enrollment_seed(), course_id.spec_bytes(), learner@], program_id@),
{
    let seeds: Vec<Vec<u8>> = vec![
        enrollment_seed_bytes(),
        vstd::slice::slice_to_vec(course_id.as_bytes()),
        address_bytes(learner),
    ];
    assert(seeds_view(seeds@) =~= seq![enrollment_seed(), course_id.spec_bytes(), learner@]);
    find_program_address(&seeds, program_id)
}

/// The address of a learner profile: seeds `[b"learner", learner]`.
pub fn learner_address(program_id: &Address, learner: &Address) -> (r: Option<(Address, u8)>)
    ensures
        derived(r, seq![learner_seed(), learner@], program_id@),
{
    let seeds: Vec<Vec<u8>> = vec![learner_seed_bytes(), address_bytes(learner)];
    assert(seeds_view(seeds@) =~= seq![learner_seed(), learner@]);
    find_program_address(&seeds, program_id)
}

} // verus!

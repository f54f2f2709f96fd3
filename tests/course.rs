use anchor_lang::prelude::Pubkey;
use superteam_academy::address::Address;
use superteam_academy::config::initialize;
use superteam_academy::course::{create_course, update_course, CreateCourseParams, UpdateCourseParams};
use superteam_academy::errors::AcademyError;
use superteam_academy::keys::{course_address, program_id};
use superteam_academy::ledger::Ledger;
use superteam_academy::state::Config;

const NOW: i64 = 1_700_000_000;

fn keypair(seed: u8) -> Address {
    Address::new([seed; 32])
}

fn course_pda(course_id: &str) -> (Address, u8) {
    let program = Pubkey::new_from_array(program_id().bytes);
    let (key, bump) = Pubkey::find_program_address(&[b"course", course_id.as_bytes()], &program);
    (Address::new(key.to_bytes()), bump)
}

fn setup() -> (Ledger, Address) {
    let authority = keypair(1);
    let mut ledger = Ledger::new();
    ledger
        .initialize(initialize(authority, keypair(2), 5000, 1000, 254))
        .unwrap();
    (ledger, authority)
}

fn params(course_id: &str, lesson_count: u8, difficulty: u8, creator: Address) -> CreateCourseParams {
    CreateCourseParams {
        course_id: course_id.to_string(),
        creator,
        content_tx_id: [0u8; 32],
        lesson_count,
        difficulty,
        xp_per_lesson: 100,
        track_id: 1,
        track_level: 1,
        prerequisite: None,
        completion_bonus_xp: 50,
        creator_reward_xp: 10,
        min_completions_for_reward: 1,
    }
}

fn config_for(authority: Address) -> Config {
    initialize(authority, keypair(2), 5000, 1000, 254)
}

fn no_change() -> UpdateCourseParams {
    UpdateCourseParams {
        new_content_tx_id: None,
        new_is_active: None,
        new_authority: None,
        new_xp_per_lesson: None,
        new_completion_bonus_xp: None,
        new_creator_reward_xp: None,
        new_min_completions_for_reward: None,
    }
}

#[test]
fn create_course_account_owned_by_program() {
    let (mut ledger, authority) = setup();
    let (course_addr, bump) = course_address(&program_id(), "owner-check").unwrap();
    ledger
        .create_course(&authority, course_addr, params("owner-check", 5, 1, authority), NOW, bump)
        .unwrap();

    let id = "owner-check".to_string();
    let stored = ledger.course_key(&id).expect("account not found");
    let (expected_addr, expected_bump) = course_pda("owner-check");
    assert_eq!(stored, expected_addr);
    assert_eq!(ledger.course(&id).unwrap().bump, expected_bump);
}

#[test]
fn create_course_stores_all_fields() {
    let authority = keypair(1);
    let p = CreateCourseParams {
        course_id: "rust-101".to_string(),
        creator: authority,
        content_tx_id: [0u8; 32],
        lesson_count: 10,
        difficulty: 2,
        xp_per_lesson: 100,
        track_id: 5,
        track_level: 3,
        prerequisite: None,
        completion_bonus_xp: 200,
        creator_reward_xp: 50,
        min_completions_for_reward: 5,
    };
    let course = create_course(&config_for(authority), &authority, p, NOW, 253).unwrap();

    assert_eq!(course.course_id, "rust-101");
    assert_eq!(course.creator, authority);
    assert_eq!(course.authority, authority);
    assert_eq!(course.content_tx_id, [0u8; 32]);
    assert_eq!(course.version, 1);
    assert_eq!(course.lesson_count, 10);
    assert_eq!(course.difficulty, 2);
    assert_eq!(course.xp_per_lesson, 100);
    assert_eq!(course.track_id, 5);
    assert_eq!(course.track_level, 3);
    assert_eq!(course.prerequisite, None);
    assert_eq!(course.completion_bonus_xp, 200);
    assert_eq!(course.creator_reward_xp, 50);
    assert_eq!(course.min_completions_for_reward, 5);
    assert_eq!(course.total_completions, 0);
    assert_eq!(course.total_enrollments, 0);
    assert!(course.is_active);
    assert!(course.created_at > 0);
    assert_eq!(course.created_at, course.updated_at);
    assert_eq!(course.reserved, [0u8; 16]);
    assert_eq!(course.bump, 253);
}

#[test]
fn create_course_empty_id_fails() {
    let authority = keypair(1);
    let r = create_course(&config_for(authority), &authority, params("", 5, 1, authority), NOW, 1);
    assert_eq!(r.err(), Some(AcademyError::InvalidId));
}

#[test]
fn create_course_id_of_33_bytes_fails() {
    let authority = keypair(1);
    let long = "a".repeat(33);
    let r = create_course(&config_for(authority), &authority, params(&long, 5, 1, authority), NOW, 1);
    assert_eq!(r.err(), Some(AcademyError::InvalidId));
    let max = "a".repeat(32);
    assert!(create_course(&config_for(authority), &authority, params(&max, 5, 1, authority), NOW, 1).is_ok());
}

#[test]
fn create_course_difficulty_zero_fails() {
    let authority = keypair(1);
    let r = create_course(&config_for(authority), &authority, params("diff-zero", 5, 0, authority), NOW, 1);
    assert_eq!(r.err(), Some(AcademyError::InvalidDifficulty));
}

#[test]
fn create_course_difficulty_four_fails() {
    let authority = keypair(1);
    let r = create_course(&config_for(authority), &authority, params("diff-four", 5, 4, authority), NOW, 1);
    assert_eq!(r.err(), Some(AcademyError::InvalidDifficulty));
}

#[test]
fn create_course_lesson_count_zero_fails() {
    let authority = keypair(1);
    let r = create_course(&config_for(authority), &authority, params("zero-lessons", 0, 1, authority), NOW, 1);
    assert_eq!(r.err(), Some(AcademyError::InvalidLessonCount));
}

#[test]
fn create_course_by_stranger_fails() {
    let authority = keypair(1);
    let r = create_course(&config_for(authority), &keypair(9), params("stranger", 5, 1, authority), NOW, 1);
    assert_eq!(r.err(), Some(AcademyError::Unauthorized));
}

#[test]
fn create_course_twice_at_same_id_fails() {
    let (mut ledger, authority) = setup();
    let (key, bump) = course_pda("dup-course");
    ledger
        .create_course(&authority, key, params("dup-course", 5, 1, authority), NOW, bump)
        .unwrap();
    let again = ledger.create_course(&authority, key, params("dup-course", 7, 2, authority), NOW, bump);
    assert_eq!(again, Err(AcademyError::RecordExists));
    assert_eq!(ledger.course(&"dup-course".to_string()).unwrap().lesson_count, 5);
}

#[test]
fn update_course_increments_version_on_content_change() {
    let authority = keypair(1);
    let mut course = create_course(&config_for(authority), &authority, params("ver-test", 5, 1, authority), NOW, 1).unwrap();
    let mut p = no_change();
    p.new_content_tx_id = Some([1u8; 32]);
    update_course(&mut course, &authority, p, NOW + 32).expect("update_course failed");
    assert_eq!(course.version, 2);
    assert_eq!(course.content_tx_id, [1u8; 32]);
    assert_eq!(course.updated_at, NOW + 32);
}

#[test]
fn update_course_no_content_change_keeps_version() {
    let authority = keypair(1);
    let mut course = create_course(&config_for(authority), &authority, params("no-ver-bump", 5, 1, authority), NOW, 1).unwrap();
    let mut p = no_change();
    p.new_xp_per_lesson = Some(200);
    update_course(&mut course, &authority, p, NOW + 5).expect("update_course failed");
    assert_eq!(course.version, 1);
    assert_eq!(course.xp_per_lesson, 200);
    assert_eq!(course.updated_at, NOW + 5);
}

#[test]
fn update_course_same_content_keeps_version() {
    let authority = keypair(1);
    let mut course = create_course(&config_for(authority), &authority, params("same-content", 5, 1, authority), NOW, 1).unwrap();
    let mut p = no_change();
    p.new_content_tx_id = Some([0u8; 32]);
    update_course(&mut course, &authority, p, NOW + 5).unwrap();
    assert_eq!(course.version, 1);
}

#[test]
fn update_course_wrong_authority_fails() {
    let authority = keypair(1);
    let mut course = create_course(&config_for(authority), &authority, params("auth-test", 5, 1, authority), NOW, 1).unwrap();
    let mut p = no_change();
    p.new_is_active = Some(false);
    let r = update_course(&mut course, &keypair(66), p, NOW + 5);
    assert_eq!(r, Err(AcademyError::Unauthorized));
    assert!(course.is_active);
    assert_eq!(course.updated_at, NOW);
}

#[test]
fn update_course_authority_transfer() {
    let authority = keypair(1);
    let mut course = create_course(&config_for(authority), &authority, params("transfer", 5, 1, authority), NOW, 1).unwrap();
    let mut p = no_change();
    p.new_authority = Some(keypair(4));
    update_course(&mut course, &authority, p, NOW + 1).unwrap();
    assert_eq!(course.authority, keypair(4));
    assert_eq!(course.version, 1);
    assert_eq!(update_course(&mut course, &authority, no_change(), NOW + 2), Err(AcademyError::Unauthorized));
    assert_eq!(update_course(&mut course, &keypair(4), no_change(), NOW + 2), Ok(()));
}

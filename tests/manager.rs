use lcsm_slave::manager::{ProcessManagementService, StartError};
use lcsm_slave::process::ProcessState;

#[test]
fn new_registry_is_empty() {
    let table: ProcessManagementService<u32> = ProcessManagementService::new();
    assert!(table.get_process(1).is_none());
    assert!(table.last_state(1).is_none());
}

#[test]
fn start_reserves_then_installs() {
    let mut table = ProcessManagementService::new();
    assert_eq!(table.begin_spawn(3), Ok(()));
    assert!(table.get_process(3).is_none());
    table.finish_spawn(3, "first");
    assert_eq!(table.get_process(3), Some(&"first"));
    assert_eq!(table.last_state(3), Some(ProcessState::Alive));
}

#[test]
fn second_start_while_starting_conflicts() {
    let mut table: ProcessManagementService<u32> = ProcessManagementService::new();
    assert_eq!(table.begin_spawn(3), Ok(()));
    assert_eq!(table.begin_spawn(3), Err(StartError::Conflict));
}

#[test]
fn start_over_live_record_conflicts() {
    let mut table = ProcessManagementService::new();
    table.begin_spawn(3).unwrap();
    table.finish_spawn(3, 30u32);
    table.observe(3, ProcessState::Alive);
    assert_eq!(table.begin_spawn(3), Err(StartError::Conflict));
    assert_eq!(table.get_process(3), Some(&30));
}

#[test]
fn start_over_dead_record_replaces_it() {
    let mut table = ProcessManagementService::new();
    table.begin_spawn(2).unwrap();
    table.finish_spawn(2, 20u32);
    table.observe(2, ProcessState::Dead);
    assert_eq!(table.begin_spawn(2), Ok(()));
    table.finish_spawn(2, 21u32);
    assert_eq!(table.get_process(2), Some(&21));
    assert_eq!(table.last_state(2), Some(ProcessState::Alive));
}

#[test]
fn dead_record_is_not_revived_by_a_later_report() {
    let mut table = ProcessManagementService::new();
    table.begin_spawn(5).unwrap();
    table.finish_spawn(5, 50u32);
    table.observe(5, ProcessState::Dead);
    table.observe(5, ProcessState::Alive);
    assert_eq!(table.last_state(5), Some(ProcessState::Dead));
}

#[test]
fn failed_spawn_releases_the_reservation() {
    let mut table: ProcessManagementService<u32> = ProcessManagementService::new();
    table.begin_spawn(9).unwrap();
    table.abort_spawn(9);
    assert_eq!(table.begin_spawn(9), Ok(()));
}

#[test]
fn abort_leaves_an_installed_record_alone() {
    let mut table = ProcessManagementService::new();
    table.begin_spawn(9).unwrap();
    table.finish_spawn(9, 90u32);
    table.abort_spawn(9);
    assert_eq!(table.get_process(9), Some(&90));
}

#[test]
fn ids_are_independent() {
    let mut table = ProcessManagementService::new();
    table.begin_spawn(1).unwrap();
    assert_eq!(table.begin_spawn(2), Ok(()));
    table.finish_spawn(2, 2u32);
    assert!(table.get_process(1).is_none());
}

#[test]
fn dead_record_stays_visible_while_a_start_runs() {
    let mut table = ProcessManagementService::new();
    table.begin_spawn(4).unwrap();
    table.finish_spawn(4, 40u32);
    table.observe(4, ProcessState::Dead);
    assert_eq!(table.begin_spawn(4), Ok(()));
    assert_eq!(table.get_process(4), Some(&40));
    assert_eq!(table.last_state(4), Some(ProcessState::Dead));
    table.finish_spawn(4, 41u32);
    assert_eq!(table.get_process(4), Some(&41));
}

#[test]
fn failed_start_gives_back_the_dead_record() {
    let mut table = ProcessManagementService::new();
    table.begin_spawn(6).unwrap();
    table.finish_spawn(6, 60u32);
    table.observe(6, ProcessState::Dead);
    table.begin_spawn(6).unwrap();
    table.abort_spawn(6);
    assert_eq!(table.get_process(6), Some(&60));
    assert_eq!(table.last_state(6), Some(ProcessState::Dead));
    assert_eq!(table.begin_spawn(6), Ok(()));
}

#[test]
fn refused_start_keeps_the_reservation() {
    let mut table: ProcessManagementService<u32> = ProcessManagementService::new();
    table.begin_spawn(8).unwrap();
    assert_eq!(table.begin_spawn(8), Err(StartError::Conflict));
    assert_eq!(table.begin_spawn(8), Err(StartError::Conflict));
    table.finish_spawn(8, 80);
    assert_eq!(table.get_process(8), Some(&80));
}

use lodestone_core::port::PortManager;

#[test]
fn fresh_table_has_every_port_free() {
    let table = PortManager::new();
    assert!(table.is_free(25565));
    assert!(table.is_free(0));
    assert!(table.is_free(u32::MAX));
}

#[test]
fn allocate_claims_a_free_port() {
    let mut table = PortManager::new();
    assert!(table.allocate_if_free(25565));
    assert!(!table.is_free(25565));
    assert!(table.is_free(25566));
}

#[test]
fn allocate_refuses_a_port_in_use() {
    let mut table = PortManager::new();
    assert!(table.allocate_if_free(25565));
    assert!(!table.allocate_if_free(25565));
    assert!(!table.is_free(25565));
}

#[test]
fn release_frees_a_port() {
    let mut table = PortManager::new();
    assert!(table.allocate_if_free(25565));
    table.release(25565);
    assert!(table.is_free(25565));
    assert!(table.allocate_if_free(25565));
}

#[test]
fn release_of_a_free_port_changes_nothing() {
    let mut table = PortManager::new();
    assert!(table.allocate_if_free(8080));
    table.release(25565);
    table.release(25565);
    assert!(table.is_free(25565));
    assert!(!table.is_free(8080));
    assert!(table.allocate_if_free(25565));
    assert!(!table.allocate_if_free(25565));
}

#[test]
fn port_is_free_when_grants_and_returns_balance() {
    // (true = allocate, false = release); grants and effective returns are
    // counted along the way and compared with what the table reports.
    let calls = vec![false, true, true, false, false, true, false, true, true];
    let mut table = PortManager::new();
    let mut grants = 0;
    let mut returns = 0;
    for allocate in calls {
        if allocate {
            if table.allocate_if_free(25565) {
                grants += 1;
            }
        } else {
            if !table.is_free(25565) {
                returns += 1;
            }
            table.release(25565);
        }
        assert_eq!(table.is_free(25565), grants - returns == 0);
        assert!(grants - returns == 0 || grants - returns == 1);
    }
    assert_eq!(grants, 3);
    assert_eq!(returns, 2);
}

#[test]
fn ports_do_not_disturb_each_other() {
    let mut table = PortManager::new();
    assert!(table.allocate_if_free(1));
    assert!(table.allocate_if_free(2));
    table.release(1);
    assert!(table.is_free(1));
    assert!(!table.is_free(2));
}

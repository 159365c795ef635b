use litehook::store::{connection, FILE_CONNECTIONS, MEMORY_CONNECTIONS};

#[test]
fn memory_database_has_one_connection() {
    let c = connection("memory");
    assert_eq!(c.url, ":memory:");
    assert_eq!(c.max_connections, 1);
    assert_eq!(MEMORY_CONNECTIONS, 1);
}

#[test]
fn file_database_has_a_pool() {
    let c = connection("data/litehook.db");
    assert_eq!(c.url, "sqlite://data/litehook.db");
    assert_eq!(c.max_connections, 32);
    assert_eq!(FILE_CONNECTIONS, 32);
    let c = connection(":memory:");
    assert_eq!(c.url, "sqlite://:memory:");
    assert_eq!(c.max_connections, 32);
    let c = connection("");
    assert_eq!(c.url, "sqlite://");
}

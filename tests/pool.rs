use db::diesel_async::pooled_connection::deadpool::Object;
use db::diesel_async::AsyncPgConnection;
use db::{
    Pool, PooledConnection, ReadOnly, ReadWrite, ReadableConnection, WriteableConnection,
    resolve_max_size, test_mode_enabled,
};

const URL: &str = "postgres://localhost/requests";

type Checkout = Object<AsyncPgConnection>;

fn accepts_readable<C: ReadableConnection>() -> bool {
    true
}

fn accepts_writeable<C: WriteableConnection>() -> bool {
    true
}

#[test]
fn given_max_size_wins_over_parallelism() {
    assert_eq!(resolve_max_size(Some(5), 8), 5);
    assert_eq!(resolve_max_size(Some(1), 1), 1);
    assert_eq!(resolve_max_size(Some(0), 3), 0);
}

#[test]
fn default_max_size_is_twice_parallelism() {
    assert_eq!(resolve_max_size(None, 8), 16);
    assert_eq!(resolve_max_size(None, 1), 2);
    assert_eq!(resolve_max_size(None, usize::MAX / 2), usize::MAX - 1);
}

#[test]
fn test_mode_is_off_unless_asked_for() {
    assert!(!test_mode_enabled(None));
    assert!(!test_mode_enabled(Some(false)));
    assert!(test_mode_enabled(Some(true)));
}

#[test]
fn read_write_pool_in_test_mode_keeps_its_settings() {
    let pool = Pool::new_rw(URL.to_string(), Some(true), Some(1), 8).unwrap();
    assert_eq!(pool.max_size(), 1);
    assert!(pool.test_mode());
}

#[test]
fn read_only_pool_defaults() {
    let pool = Pool::new_ro(URL.to_string(), None, None, 4).unwrap();
    assert_eq!(pool.max_size(), 8);
    assert!(!pool.test_mode());
}

#[test]
fn generic_constructor_matches_the_convenience_ones() {
    let generic = Pool::<ReadWrite>::new(URL.to_string(), Some(false), Some(3), 2).unwrap();
    let rw = Pool::new_rw(URL.to_string(), Some(false), Some(3), 2).unwrap();
    assert_eq!(generic.max_size(), rw.max_size());
    assert_eq!(generic.test_mode(), rw.test_mode());
    let generic = Pool::<ReadOnly>::new(URL.to_string(), Some(true), None, 3).unwrap();
    let ro = Pool::new_ro(URL.to_string(), Some(true), None, 3).unwrap();
    assert_eq!(generic.max_size(), 6);
    assert_eq!(ro.max_size(), 6);
    assert_eq!(generic.test_mode(), ro.test_mode());
}

#[test]
fn clones_share_the_pool() {
    let pool = Pool::new_ro(URL.to_string(), Some(true), Some(7), 1).unwrap();
    let copy = pool.clone();
    assert_eq!(copy.max_size(), 7);
    assert!(copy.test_mode());
    assert_eq!(copy.connections().deadpool.status().max_size, 7);
    assert_eq!(pool.connections().deadpool.status().size, 0);
}

#[test]
fn explicit_test_mode_off_builds_a_plain_pool() {
    let pool = Pool::new_rw(URL.to_string(), Some(false), Some(2), 1).unwrap();
    assert!(!pool.test_mode());
    assert_eq!(pool.max_size(), 2);
}

#[test]
fn tagged_handle_dereferences_to_the_connection() {
    let pool = Pool::new_ro(URL.to_string(), None, Some(1), 1).unwrap();
    let mut conn: PooledConnection<ReadOnly, Box<u32>> = pool.capability().wrap(Box::new(5));
    assert_eq!(*conn, 5);
    *conn += 1;
    assert_eq!(*AsMut::<u32>::as_mut(&mut conn), 6);
    let derived = conn.capability().wrap(Box::new(9));
    assert_eq!(*derived, 9);
    assert_eq!(*conn.into_inner(), 6);
}

#[test]
fn read_write_connections_are_readable_and_writeable() {
    assert!(accepts_readable::<PooledConnection<ReadWrite, Checkout>>());
    assert!(accepts_writeable::<PooledConnection<ReadWrite, Checkout>>());
    assert!(accepts_readable::<PooledConnection<ReadWrite, &'static mut AsyncPgConnection>>());
    assert!(accepts_writeable::<PooledConnection<ReadWrite, &'static mut AsyncPgConnection>>());
}

#[test]
fn read_only_connections_are_readable() {
    assert!(accepts_readable::<PooledConnection<ReadOnly, Checkout>>());
    assert!(accepts_readable::<PooledConnection<ReadOnly, &'static mut AsyncPgConnection>>());
}

#[test]
fn builder_collects_options() {
    let pool = Pool::rw_builder()
        .database_url(URL.to_string())
        .test_mode(true)
        .max_size(1)
        .build(8)
        .unwrap();
    assert_eq!(pool.max_size(), 1);
    assert!(pool.test_mode());
}

#[test]
fn builder_defaults_follow_parallelism() {
    let pool = Pool::ro_builder()
        .database_url(URL.to_string())
        .and_test_mode(None)
        .and_max_size(None)
        .build(3)
        .unwrap();
    assert_eq!(pool.max_size(), 6);
    assert!(!pool.test_mode());
}

#[test]
fn builder_options_can_come_before_the_url() {
    let builder = Pool::<ReadWrite>::builder().max_size(4).and_test_mode(Some(true));
    assert_eq!(builder.max_size, Some(4));
    assert_eq!(builder.test_mode, Some(true));
    let builder = builder.database_url(URL.to_string()).and_max_size(Some(2));
    assert_eq!(builder.database_url, URL);
    let pool = builder.build(1).unwrap();
    assert_eq!(pool.max_size(), 2);
    assert!(pool.test_mode());
}

#[test]
fn checkout_outcome_is_tagged_or_passed_on() {
    let pool = Pool::new_rw(URL.to_string(), Some(true), Some(1), 1).unwrap();
    let ok: Result<PooledConnection<ReadWrite, Box<u32>>, String> = pool.tag_checkout(Ok(Box::new(4)));
    assert_eq!(*ok.unwrap(), 4);
    let err: Result<PooledConnection<ReadWrite, Box<u32>>, String> =
        pool.tag_checkout(Err("pool closed".to_string()));
    assert!(matches!(err, Err(ref e) if e == "pool closed"));
}

#[test]
fn max_size_reports_the_bound_built_with() {
    let pool = Pool::new_rw(URL.to_string(), None, Some(5), 1).unwrap();
    pool.connections().deadpool.resize(2);
    assert_eq!(pool.connections().deadpool.status().max_size, 2);
    assert_eq!(pool.max_size(), 5);
    assert_eq!(pool.clone().max_size(), 5);
}

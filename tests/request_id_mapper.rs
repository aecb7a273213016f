use messages_sv2::{RequestIdMapper, UnknownRequestId};

#[test]
fn mapper_end_to_end() {
    let mut mapper = RequestIdMapper::new();
    assert_eq!(mapper.on_open_channel(500), 0);
    assert_eq!(mapper.on_open_channel(777), 1);
    assert_eq!(mapper.remove(0), Ok(500));
    assert_eq!(mapper.remove(1), Ok(777));
    assert_eq!(mapper.remove(0), Err(UnknownRequestId { upstream_id: 0 }));
}

#[test]
fn fresh_mapper_allocates_sequential_ids() {
    let mut mapper = RequestIdMapper::new();
    let originals = [9u32, 9, 4, 0, u32::MAX];
    let mut got = Vec::new();
    for original in originals {
        got.push(mapper.on_open_channel(original));
    }
    assert_eq!(got, vec![0, 1, 2, 3, 4]);
    for (outbound, original) in originals.iter().enumerate() {
        assert_eq!(mapper.remove(outbound as u32), Ok(*original));
    }
}

#[test]
fn default_mapper_starts_at_zero() {
    let mut mapper = RequestIdMapper::default();
    assert!(!mapper.is_exhausted());
    assert_eq!(mapper.on_open_channel(42), 0);
    assert_eq!(mapper.on_open_channel(42), 1);
}

#[test]
fn resolve_right_after_allocate_returns_original() {
    let mut mapper = RequestIdMapper::new();
    mapper.on_open_channel(1);
    let outbound = mapper.on_open_channel(123_456);
    assert_eq!(outbound, 1);
    assert_eq!(mapper.remove(outbound), Ok(123_456));
    assert_eq!(mapper.remove(0), Ok(1));
}

#[test]
fn resolve_never_allocated_is_an_error() {
    let mut mapper = RequestIdMapper::new();
    assert_eq!(mapper.remove(0), Err(UnknownRequestId { upstream_id: 0 }));
    mapper.on_open_channel(5);
    assert_eq!(mapper.remove(1), Err(UnknownRequestId { upstream_id: 1 }));
    assert_eq!(
        mapper.remove(u32::MAX),
        Err(UnknownRequestId { upstream_id: u32::MAX })
    );
    assert_eq!(mapper.remove(0), Ok(5));
}

#[test]
fn resolve_twice_is_an_error() {
    let mut mapper = RequestIdMapper::new();
    let outbound = mapper.on_open_channel(31);
    assert_eq!(mapper.remove(outbound), Ok(31));
    assert_eq!(
        mapper.remove(outbound),
        Err(UnknownRequestId { upstream_id: outbound })
    );
}

#[test]
fn resolved_id_is_not_reused() {
    let mut mapper = RequestIdMapper::new();
    let first = mapper.on_open_channel(10);
    assert_eq!(mapper.remove(first), Ok(10));
    let second = mapper.on_open_channel(20);
    assert_ne!(first, second);
    assert_eq!(second, 1);
    assert_eq!(
        mapper.remove(first),
        Err(UnknownRequestId { upstream_id: first })
    );
    assert_eq!(mapper.remove(second), Ok(20));
}

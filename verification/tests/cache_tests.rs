use pxls::time::UnixTime;
use pxls::{
    ActivityCooldown, BoardInfo, Buffer, ClientCache, ConsistencyError, CooldownInfo,
    CooldownType, Lookup, Pixel, RequestError, Slot, Ticket,
};
use std::collections::HashMap;

fn at(secs: i64, nanos: u32) -> UnixTime {
    UnixTime::new(secs, nanos).unwrap()
}

fn board(width: usize, height: usize, heatmap_cooldown: usize) -> BoardInfo {
    BoardInfo {
        canvas_code: String::from("1"),
        width,
        height,
        palette: Vec::new(),
        cooldown_info: CooldownInfo {
            kind: CooldownType::Static,
            static_cooldown_seconds: 10,
            activity_cooldown: ActivityCooldown { steepness_bits: 0 },
        },
        captcha_key: String::new(),
        heatmap_cooldown,
        max_stacked: 6,
        auth_services: HashMap::new(),
        registration_enabled: true,
        chat_enabled: true,
        chat_respects_canvas_ban: true,
        chat_character_limit: 256,
        chat_banner_text: Vec::new(),
        snip_mode: false,
        custom_emoji: Vec::new(),
        cors_base: String::new(),
        cors_param: None,
        chat_ratelimit_message: String::new(),
    }
}

fn ticket(answer: Lookup) -> Ticket {
    match answer {
        Lookup::Fetch(ticket) => ticket,
        other => panic!("no ticket: {:?}", other),
    }
}

/// A cache with the metadata of a canvas of `width` by `height` cached.
fn cache_with_info(width: usize, height: usize, heatmap_cooldown: usize) -> ClientCache {
    let mut cache = ClientCache::new();
    let t = ticket(cache.request_info());
    assert_eq!(cache.store_info(t, Ok(board(width, height, heatmap_cooldown))), Ok(()));
    cache
}

fn fill(cache: &mut ClientCache, which: Buffer, data: Vec<u8>) {
    let t = ticket(cache.request_buffer(which));
    assert_eq!(cache.store_buffer(t, Ok(data)), Ok(()));
}

#[test]
fn a_new_cache_is_empty() {
    let cache = ClientCache::new();
    assert!(cache.info().is_none());
    assert!(cache.colors().is_none());
    assert!(cache.initial_colors().is_none());
    assert!(cache.mask().is_none());
    assert!(cache.timestamps().is_none());
    assert!(cache.created_at().is_none());
    assert_eq!(cache.generation(), 0);
}

#[test]
fn the_default_cache_is_empty() {
    let cache = ClientCache::default();
    assert!(cache.info().is_none());
    assert!(cache.colors().is_none());
    assert_eq!(cache.generation(), 0);
}

#[test]
fn single_flight_for_the_metadata() {
    let mut cache = ClientCache::new();
    let mut tickets = 0;
    for _ in 0..25 {
        match cache.request_info() {
            Lookup::Fetch(_) => tickets += 1,
            Lookup::Pending => {}
            other => panic!("unexpected answer: {:?}", other),
        }
    }
    assert_eq!(tickets, 1);
}

#[test]
fn single_flight_for_every_slot() {
    let slots = [
        Slot::Buffer(Buffer::Colors),
        Slot::Buffer(Buffer::InitialColors),
        Slot::Buffer(Buffer::Mask),
        Slot::Timestamps,
    ];
    for slot in slots {
        let mut cache = cache_with_info(4, 4, 300);
        let first = cache.request(slot, at(1_000, 0));
        assert_eq!(first, Ok(Lookup::Fetch(Ticket { slot, generation: 0 })));
        for n in 0..10 {
            assert_eq!(cache.request(slot, at(1_001 + n, 0)), Ok(Lookup::Pending));
        }
    }
}

#[test]
fn slots_are_fetched_independently() {
    let mut cache = cache_with_info(2, 2, 300);
    assert!(matches!(cache.request_buffer(Buffer::Colors), Lookup::Fetch(_)));
    assert!(matches!(cache.request_buffer(Buffer::Mask), Lookup::Fetch(_)));
    assert!(matches!(cache.request_buffer(Buffer::InitialColors), Lookup::Fetch(_)));
    assert_eq!(cache.request_buffer(Buffer::Colors), Lookup::Pending);
}

#[test]
fn a_cached_value_is_not_fetched_again() {
    let mut cache = cache_with_info(2, 2, 300);
    assert_eq!(cache.request_info(), Lookup::Cached);
    fill(&mut cache, Buffer::Colors, vec![1, 2, 3, 4]);
    assert_eq!(cache.request_buffer(Buffer::Colors), Lookup::Cached);
    assert_eq!(cache.colors(), Some(&vec![1, 2, 3, 4]));
    assert_eq!(cache.buffer(Buffer::Colors), Some(&vec![1, 2, 3, 4]));
    assert!(cache.mask().is_none());
}

#[test]
fn each_buffer_has_its_own_slot() {
    let mut cache = cache_with_info(1, 2, 300);
    fill(&mut cache, Buffer::Colors, vec![1, 2]);
    fill(&mut cache, Buffer::InitialColors, vec![3, 4]);
    fill(&mut cache, Buffer::Mask, vec![5, 6]);
    assert_eq!(cache.colors(), Some(&vec![1, 2]));
    assert_eq!(cache.initial_colors(), Some(&vec![3, 4]));
    assert_eq!(cache.mask(), Some(&vec![5, 6]));
}

#[test]
fn per_pixel_buffers_wait_for_the_metadata() {
    let mut cache = ClientCache::new();
    assert_eq!(cache.request_buffer(Buffer::Colors), Lookup::NeedsInfo);
    assert_eq!(cache.request_timestamps(at(0, 0)), Ok(Lookup::NeedsInfo));
    let t = ticket(cache.request_info());
    // Still not cached: the fetch is only under way.
    assert_eq!(cache.request_buffer(Buffer::Mask), Lookup::NeedsInfo);
    assert_eq!(cache.store_info(t, Ok(board(2, 2, 300))), Ok(()));
    assert!(matches!(cache.request_buffer(Buffer::Colors), Lookup::Fetch(_)));
}

#[test]
fn a_failed_fetch_leaves_the_slot_empty() {
    let mut cache = ClientCache::new();
    let t = ticket(cache.request_info());
    let failure = RequestError::Http(String::from("connection refused"));
    assert_eq!(cache.store_info(t, Err(failure.clone())), Err(failure));
    assert!(cache.info().is_none());
    // A later request fetches again.
    assert!(matches!(cache.request_info(), Lookup::Fetch(_)));
}

#[test]
fn a_failed_buffer_fetch_leaves_the_slot_empty() {
    let mut cache = cache_with_info(2, 2, 300);
    let t = ticket(cache.request_buffer(Buffer::Mask));
    let failure = RequestError::Buffer(String::from("reset"));
    assert_eq!(cache.store_buffer(t, Err(failure.clone())), Err(failure));
    assert!(cache.mask().is_none());
    assert!(matches!(cache.request_buffer(Buffer::Mask), Lookup::Fetch(_)));
}

#[test]
fn a_buffer_of_the_wrong_size_is_refused() {
    let mut cache = cache_with_info(3, 2, 300);
    let t = ticket(cache.request_buffer(Buffer::Colors));
    assert_eq!(
        cache.store_buffer(t, Ok(vec![0; 5])),
        Err(RequestError::Size { expected: 6, actual: 5 })
    );
    assert!(cache.colors().is_none());
    let t = ticket(cache.request_buffer(Buffer::Colors));
    assert_eq!(
        cache.store_buffer(t, Ok(vec![0; 7])),
        Err(RequestError::Size { expected: 6, actual: 7 })
    );
    let t = ticket(cache.request_buffer(Buffer::Colors));
    assert_eq!(cache.store_buffer(t, Ok(vec![0; 6])), Ok(()));
    assert_eq!(cache.colors().map(|b| b.len()), Some(6));
}

#[test]
fn populated_buffers_have_one_entry_for_each_pixel() {
    let mut cache = cache_with_info(5, 3, 300);
    fill(&mut cache, Buffer::Colors, vec![0; 15]);
    fill(&mut cache, Buffer::InitialColors, vec![0; 15]);
    fill(&mut cache, Buffer::Mask, vec![0; 15]);
    let t = ticket(cache.request_timestamps(at(10_000, 0)).unwrap());
    assert_eq!(cache.store_timestamps(t, Ok((vec![0; 15], vec![0; 15]))), Ok(()));
    let info = cache.info().unwrap();
    let area = info.width * info.height;
    assert_eq!(cache.colors().unwrap().len(), area);
    assert_eq!(cache.initial_colors().unwrap().len(), area);
    assert_eq!(cache.mask().unwrap().len(), area);
    assert_eq!(cache.timestamps().unwrap().len(), area);
}

#[test]
fn a_canvas_too_large_to_count_is_refused() {
    let mut cache = ClientCache::new();
    let t = ticket(cache.request_info());
    assert_eq!(
        cache.store_info(t, Ok(board(usize::MAX, 2, 300))),
        Err(RequestError::CanvasTooLarge)
    );
    assert!(cache.info().is_none());
    assert!(matches!(cache.request_info(), Lookup::Fetch(_)));
}

#[test]
fn a_report_for_another_slot_is_dropped() {
    let mut cache = cache_with_info(2, 2, 300);
    let colors = ticket(cache.request_buffer(Buffer::Colors));
    let mask = Ticket { slot: Slot::Buffer(Buffer::Mask), generation: colors.generation };
    // No fetch of the mask is under way.
    assert_eq!(cache.store_buffer(mask, Ok(vec![0; 4])), Err(RequestError::Superseded));
    assert!(cache.mask().is_none());
    // A ticket for a buffer reports no metadata, and the other way round.
    assert_eq!(cache.store_info(colors, Ok(board(1, 1, 1))), Err(RequestError::Superseded));
    assert_eq!(cache.info().unwrap().width, 2);
    let info = Ticket { slot: Slot::Info, generation: colors.generation };
    assert_eq!(cache.store_buffer(info, Ok(vec![0; 4])), Err(RequestError::Superseded));
    assert_eq!(
        cache.store_timestamps(colors, Ok((vec![0; 4], vec![0; 4]))),
        Err(RequestError::Superseded)
    );
    // The fetch that is under way can still report.
    assert_eq!(cache.store_buffer(colors, Ok(vec![9; 4])), Ok(()));
}

#[test]
fn a_second_report_is_dropped() {
    let mut cache = cache_with_info(2, 2, 300);
    let t = ticket(cache.request_buffer(Buffer::Colors));
    assert_eq!(cache.store_buffer(t, Ok(vec![1; 4])), Ok(()));
    assert_eq!(cache.store_buffer(t, Ok(vec![2; 4])), Err(RequestError::Superseded));
    assert_eq!(cache.colors(), Some(&vec![1; 4]));
}

#[test]
fn invalidation_empties_every_slot() {
    let mut cache = cache_with_info(2, 2, 300);
    fill(&mut cache, Buffer::Colors, vec![0; 4]);
    fill(&mut cache, Buffer::InitialColors, vec![0; 4]);
    fill(&mut cache, Buffer::Mask, vec![0; 4]);
    let t = ticket(cache.request_timestamps(at(10_000, 0)).unwrap());
    assert_eq!(cache.store_timestamps(t, Ok((vec![0; 4], vec![0; 4]))), Ok(()));
    assert!(cache.created_at().is_some());
    cache.invalidate_all();
    assert!(cache.info().is_none());
    assert!(cache.colors().is_none());
    assert!(cache.initial_colors().is_none());
    assert!(cache.mask().is_none());
    assert!(cache.timestamps().is_none());
    assert!(cache.created_at().is_none());
    assert_eq!(cache.generation(), 1);
}

#[test]
fn a_fetch_from_before_the_invalidation_cannot_populate() {
    let mut cache = ClientCache::new();
    let stale = ticket(cache.request_info());
    cache.invalidate_all();
    assert_eq!(cache.store_info(stale, Ok(board(2, 2, 300))), Err(RequestError::Superseded));
    assert!(cache.info().is_none());
    // Not even while a fetch of the new generation is under way.
    let fresh = ticket(cache.request_info());
    assert_ne!(stale, fresh);
    assert_eq!(cache.store_info(stale, Ok(board(2, 2, 300))), Err(RequestError::Superseded));
    assert!(cache.info().is_none());
    // A stale failure does not end the fetch of the new generation either.
    let failure = RequestError::Http(String::from("late"));
    assert_eq!(cache.store_info(stale, Err(failure)), Err(RequestError::Superseded));
    assert_eq!(cache.request_info(), Lookup::Pending);
    assert_eq!(cache.store_info(fresh, Ok(board(3, 3, 300))), Ok(()));
    assert_eq!(cache.info().unwrap().width, 3);
}

#[test]
fn a_stale_buffer_cannot_populate() {
    let mut cache = cache_with_info(2, 2, 300);
    let colors = ticket(cache.request_buffer(Buffer::Colors));
    let stamps = ticket(cache.request_timestamps(at(5_000, 0)).unwrap());
    cache.invalidate_all();
    let t = ticket(cache.request_info());
    assert_eq!(cache.store_info(t, Ok(board(2, 2, 300))), Ok(()));
    assert_eq!(cache.store_buffer(colors, Ok(vec![0; 4])), Err(RequestError::Superseded));
    assert_eq!(
        cache.store_timestamps(stamps, Ok((vec![0; 4], vec![0; 4]))),
        Err(RequestError::Superseded)
    );
    assert!(cache.colors().is_none());
    assert!(cache.timestamps().is_none());
    assert!(cache.created_at().is_none());
}

#[test]
fn the_generation_wraps() {
    let mut cache = ClientCache::new();
    for expected in 1..=5u64 {
        cache.invalidate_all();
        assert_eq!(cache.generation(), expected);
    }
}

#[test]
fn timestamps_are_derived_when_the_maps_arrive() {
    let mut cache = cache_with_info(2, 2, 300);
    let now = at(1_000_000, 0);
    let t = ticket(cache.request_timestamps(now).unwrap());
    let epoch = cache.created_at().unwrap();
    assert_eq!(epoch.secs(), 1_000_000 - 301);
    assert_eq!(
        cache.store_timestamps(t, Ok((vec![0, 50, 255, 9], vec![0, 0, 0, 1]))),
        Ok(())
    );
    assert_eq!(cache.timestamps(), Some(&vec![301, 251, 46, 0]));
    assert_eq!(cache.request_timestamps(at(2_000_000, 0)), Ok(Lookup::Cached));
}

#[test]
fn the_start_of_the_canvas_is_set_once() {
    let mut cache = cache_with_info(1, 1, 300);
    let t0 = at(1_000_000, 0);
    let first = ticket(cache.request_timestamps(t0).unwrap());
    let failure = RequestError::Http(String::from("timeout"));
    assert_eq!(cache.store_timestamps(first, Err(failure.clone())), Err(failure));
    assert!(cache.timestamps().is_none());
    assert_eq!(cache.created_at().unwrap().secs(), 1_000_000 - 301);
    // A later reconstruction counts from the same start, at its own instant.
    let t = at(1_000_777, 0);
    let second = ticket(cache.request_timestamps(t).unwrap());
    assert_eq!(cache.created_at().unwrap().secs(), 1_000_000 - 301);
    assert_eq!(cache.store_timestamps(second, Ok((vec![50], vec![0]))), Ok(()));
    // (t - 50) - (t0 - 301)
    assert_eq!(cache.timestamps(), Some(&vec![1028]));
}

#[test]
fn maps_of_the_wrong_size_are_refused() {
    let mut cache = cache_with_info(2, 2, 300);
    let t = ticket(cache.request_timestamps(at(10_000, 0)).unwrap());
    assert_eq!(
        cache.store_timestamps(t, Ok((vec![0; 3], vec![0; 4]))),
        Err(RequestError::Size { expected: 4, actual: 3 })
    );
    assert!(cache.timestamps().is_none());
    let t = ticket(cache.request_timestamps(at(10_000, 0)).unwrap());
    assert_eq!(
        cache.store_timestamps(t, Ok((vec![0; 4], vec![0; 5]))),
        Err(RequestError::Size { expected: 4, actual: 5 })
    );
    assert!(cache.timestamps().is_none());
}

#[test]
fn an_age_that_cannot_be_held_fails_the_reconstruction() {
    let mut cache = cache_with_info(1, 2, 10);
    let now = at(10_000, 0);
    let t = ticket(cache.request_timestamps(now).unwrap());
    // The window is 10 s: a heat of 12 s lies before the start of the canvas.
    assert_eq!(
        cache.store_timestamps(t, Ok((vec![5, 12], vec![0, 0]))),
        Err(RequestError::Inconsistent(ConsistencyError::UnrepresentableAge))
    );
    assert!(cache.timestamps().is_none());
    assert!(matches!(cache.request_timestamps(now), Ok(Lookup::Fetch(_))));
}

#[test]
fn a_start_that_cannot_be_held_fails_the_request() {
    let mut cache = cache_with_info(1, 1, 300);
    assert_eq!(
        cache.request_timestamps(at(i64::MIN + 10, 0)),
        Err(ConsistencyError::UnrepresentableEpoch)
    );
    assert!(cache.created_at().is_none());
    assert!(matches!(cache.request_timestamps(at(0, 0)), Ok(Lookup::Fetch(_))));
}

#[test]
fn an_update_touches_one_index_only() {
    let mut cache = cache_with_info(10, 10, 300);
    let before: Vec<u8> = (0..100).map(|i| (i % 5) as u8).collect();
    fill(&mut cache, Buffer::Colors, before.clone());
    assert_eq!(cache.update(&Pixel { x: 2, y: 3, color: 7 }, at(1_000, 0)), Ok(()));
    let after = cache.colors().unwrap();
    assert_eq!(after.len(), 100);
    assert_eq!(after[32], 7);
    for i in 0..100 {
        if i != 32 {
            assert_eq!(after[i], before[i]);
        }
    }
}

#[test]
fn an_update_leaves_the_other_slots_alone() {
    let mut cache = cache_with_info(2, 2, 300);
    fill(&mut cache, Buffer::Colors, vec![0; 4]);
    fill(&mut cache, Buffer::InitialColors, vec![1; 4]);
    fill(&mut cache, Buffer::Mask, vec![2; 4]);
    assert_eq!(cache.update(&Pixel { x: 1, y: 1, color: 9 }, at(1_000, 0)), Ok(()));
    assert_eq!(cache.colors(), Some(&vec![0, 0, 0, 9]));
    assert_eq!(cache.initial_colors(), Some(&vec![1; 4]));
    assert_eq!(cache.mask(), Some(&vec![2; 4]));
    assert!(cache.timestamps().is_none());
    assert!(cache.created_at().is_none());
    assert_eq!(cache.generation(), 0);
}

#[test]
fn an_update_stamps_the_pixel() {
    let mut cache = cache_with_info(2, 2, 300);
    fill(&mut cache, Buffer::Colors, vec![0; 4]);
    let t0 = at(1_000_000, 0);
    let t = ticket(cache.request_timestamps(t0).unwrap());
    assert_eq!(cache.store_timestamps(t, Ok((vec![0; 4], vec![1; 4]))), Ok(()));
    assert_eq!(cache.timestamps(), Some(&vec![0; 4]));
    assert_eq!(cache.update(&Pixel { x: 0, y: 1, color: 3 }, at(1_000_100, 500)), Ok(()));
    assert_eq!(cache.colors(), Some(&vec![0, 0, 3, 0]));
    // now - start = 100 + 301
    assert_eq!(cache.timestamps(), Some(&vec![0, 0, 401, 0]));
}

#[test]
fn an_update_without_a_colour_buffer_is_skipped() {
    let mut cache = cache_with_info(2, 2, 300);
    assert_eq!(cache.update(&Pixel { x: 1, y: 0, color: 3 }, at(0, 0)), Ok(()));
    assert!(cache.colors().is_none());
    let mut empty = ClientCache::new();
    assert_eq!(empty.update(&Pixel { x: 100, y: 100, color: 3 }, at(0, 0)), Ok(()));
    assert!(empty.colors().is_none());
}

#[test]
fn an_update_while_the_colours_are_fetched_is_skipped() {
    let mut cache = cache_with_info(2, 2, 300);
    let t = ticket(cache.request_buffer(Buffer::Colors));
    assert_eq!(cache.update(&Pixel { x: 1, y: 0, color: 3 }, at(0, 0)), Ok(()));
    assert_eq!(cache.store_buffer(t, Ok(vec![0; 4])), Ok(()));
    assert_eq!(cache.colors(), Some(&vec![0; 4]));
}

#[test]
fn an_update_off_the_canvas_changes_nothing() {
    let mut cache = cache_with_info(2, 2, 300);
    fill(&mut cache, Buffer::Colors, vec![0; 4]);
    assert_eq!(
        cache.update(&Pixel { x: 2, y: 0, color: 3 }, at(0, 0)),
        Err(ConsistencyError::PixelOutOfRange { x: 2, y: 0 })
    );
    assert_eq!(
        cache.update(&Pixel { x: 0, y: 2, color: 3 }, at(0, 0)),
        Err(ConsistencyError::PixelOutOfRange { x: 0, y: 2 })
    );
    assert_eq!(cache.colors(), Some(&vec![0; 4]));
}

#[test]
fn an_update_before_the_start_changes_nothing() {
    let mut cache = cache_with_info(2, 2, 300);
    fill(&mut cache, Buffer::Colors, vec![0; 4]);
    let t = ticket(cache.request_timestamps(at(1_000_000, 0)).unwrap());
    assert_eq!(cache.store_timestamps(t, Ok((vec![0; 4], vec![1; 4]))), Ok(()));
    assert_eq!(
        cache.update(&Pixel { x: 0, y: 0, color: 3 }, at(999_000, 0)),
        Err(ConsistencyError::UnrepresentableAge)
    );
    // Neither buffer was written.
    assert_eq!(cache.colors(), Some(&vec![0; 4]));
    assert_eq!(cache.timestamps(), Some(&vec![0; 4]));
}

#[test]
fn a_batch_stops_at_the_first_fault() {
    let mut cache = cache_with_info(2, 2, 300);
    fill(&mut cache, Buffer::Colors, vec![0; 4]);
    let batch = vec![
        Pixel { x: 0, y: 0, color: 1 },
        Pixel { x: 1, y: 0, color: 2 },
        Pixel { x: 5, y: 5, color: 3 },
        Pixel { x: 1, y: 1, color: 4 },
    ];
    assert_eq!(
        cache.update_all(&batch, at(0, 0)),
        Err(ConsistencyError::PixelOutOfRange { x: 5, y: 5 })
    );
    assert_eq!(cache.colors(), Some(&vec![1, 2, 0, 0]));
}

#[test]
fn a_batch_is_applied_in_order() {
    let mut cache = cache_with_info(2, 2, 300);
    fill(&mut cache, Buffer::Colors, vec![0; 4]);
    let batch = vec![
        Pixel { x: 0, y: 0, color: 1 },
        Pixel { x: 1, y: 1, color: 2 },
        Pixel { x: 0, y: 0, color: 3 },
    ];
    assert_eq!(cache.update_all(&batch, at(0, 0)), Ok(()));
    assert_eq!(cache.colors(), Some(&vec![3, 0, 0, 2]));
    assert_eq!(cache.update_all(&Vec::new(), at(0, 0)), Ok(()));
    assert_eq!(cache.colors(), Some(&vec![3, 0, 0, 2]));
}

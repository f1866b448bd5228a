use heapless::spsc::Queue;

use paging_buffer::cassette::{Cassette, CassetteId};
use paging_buffer::config::Config;
use paging_buffer::manager::Manager;
use paging_buffer::page::{Page, PageId, PageRequest};
use paging_buffer::pool::{Handle, Pool};

fn assert_and_handle_handle_save_request(
    expected_handle_save_request: Option<PageId>,
    sd: &mut [Option<Page>; 4],
    pool: &mut Pool,
    save_request_queue: &mut Queue<Handle, 4>,
) {
    let received_handle_save_request = save_request_queue.dequeue();
    if let Some(expected_handle_save_request) = expected_handle_save_request {
        let handle = received_handle_save_request.expect("No save request was received");
        assert_eq!(
            pool.page_ref(&handle).id(),
            expected_handle_save_request,
            "Unexpected handle save request"
        );
        let index = pool.page_ref(&handle).index();
        sd[index] = Some(pool.take_page(handle));
    } else {
        assert!(
            received_handle_save_request.is_none(),
            "Unexpected handle save request"
        );
    }
}

fn assert_and_handle_page_save_request(
    expected_first_page_save_request: Option<PageId>,
    sd: &mut [Option<Page>; 4],
    save_request_first_page_queue: &mut Queue<Page, 4>,
) {
    let received_first_page_save_request = save_request_first_page_queue.dequeue();
    if let Some(expected_first_page_save_request) = expected_first_page_save_request {
        let page = received_first_page_save_request.expect("No page save request was received");
        assert_eq!(
            page.id(),
            expected_first_page_save_request,
            "Unexpected page save request"
        );
        let index = page.index();
        sd[index] = Some(page);
    } else {
        assert!(
            received_first_page_save_request.is_none(),
            "Unexpected page save request"
        );
    }
}

fn assert_and_handle_load_page_request(
    expected_load_request: Option<PageRequest>,
    pool: &mut Pool,
    load_request_queue: &mut Queue<PageRequest, 4>,
    load_response_queue: &mut Queue<Handle, 4>,
) {
    let received_load_request = load_request_queue.dequeue();

    if let Some(expected_load_request) = expected_load_request {
        let request = received_load_request.expect("No load request was received");
        assert_eq!(request, expected_load_request, "Unexpected load request");

        let handle = pool.new_page(expected_load_request.page_id());
        load_response_queue.enqueue(handle).ok().unwrap();
    } else {
        assert!(received_load_request.is_none(), "Unexpected load request");
    }
}

fn assert_saved(page_index: usize, dirty: bool, sd: &[Option<Page>; 4]) {
    let page = sd[page_index].as_ref().expect("The page was not persisted");
    assert_eq!(page.index(), page_index, "Persisted page sits at the wrong address");
    assert_eq!(page.is_dirty(), dirty, "Persisted page has an unexpected dirty flag");
}

#[test]
fn full_flow_starting_from_nothing_with_long_recording() {
    let mut save_request_queue: Queue<Handle, 4> = Queue::new();
    let mut save_request_first_page_queue: Queue<Page, 4> = Queue::new();
    let mut load_request_queue: Queue<PageRequest, 4> = Queue::new();
    let mut load_response_queue: Queue<Handle, 4> = Queue::new();
    let mut config_queue: Queue<Config, 4> = Queue::new();

    // Owned by the storage task.
    let mut sd: [Option<Page>; 4] = [None, None, None, None];
    let mut pool = Pool::new();

    // Owned by the caller. Running as the DSP loop.
    let mut manager = Manager::new();

    // Loading metadata about the selected cassette from SD. This is solely
    // based on the length of the recording found on the file system; no
    // metadata is saved on the side.
    manager.set_cassette(Cassette::new(1), &mut pool);
    manager.start_loading_next_page(&mut load_request_queue);

    // Storage task initializes the page and passes it to the caller.
    assert_and_handle_load_page_request(
        Some(PageRequest::Blank(PageId::new(CassetteId::new(1), 0))),
        &mut pool,
        &mut load_request_queue,
        &mut load_response_queue,
    );

    // Control loop issues a request for recording.
    config_queue.enqueue(Config { recording: true }).ok().unwrap();

    // Caller records into the first page until it is full. This spans
    // multiple DSP ticks.
    loop {
        manager.process_configuration_updates(&mut config_queue);

        if manager.is_waiting_for_page() {
            let acquired = manager.try_fetching_next_page(&mut load_response_queue);
            if acquired {
                manager.start_loading_next_page(&mut load_request_queue);
            }
        }

        manager.process(&[0.1f32.to_bits(); 32], &mut pool);

        if manager.has_full_page() {
            manager.start_saving(
                &mut save_request_queue,
                &mut save_request_first_page_queue,
                &mut pool,
            );
            break;
        }
    }

    // Storage task answers the request for the next page and stores the
    // fully populated first page. The first page arrives by value since the
    // manager keeps the original handle for caching purposes.
    {
        assert_and_handle_load_page_request(
            Some(PageRequest::Blank(PageId::new(CassetteId::new(1), 1))),
            &mut pool,
            &mut load_request_queue,
            &mut load_response_queue,
        );
        assert_and_handle_page_save_request(
            Some(PageId::new(CassetteId::new(1), 0)),
            &mut sd,
            &mut save_request_first_page_queue,
        );
        assert_and_handle_handle_save_request(None, &mut sd, &mut pool, &mut save_request_queue);
        assert_saved(0, true, &sd);
    }

    // Caller records into the second page until it is full.
    loop {
        manager.process_configuration_updates(&mut config_queue);

        if manager.is_waiting_for_page() {
            let acquired = manager.try_fetching_next_page(&mut load_response_queue);
            if acquired {
                manager.start_loading_next_page(&mut load_request_queue);
            }
        }

        manager.process(&[0.2f32.to_bits(); 32], &mut pool);

        if manager.has_full_page() {
            manager.start_saving(
                &mut save_request_queue,
                &mut save_request_first_page_queue,
                &mut pool,
            );
            break;
        }
    }

    // Storage task responds to the request for the next blank page. It also
    // saves the fully populated page; this time the handle itself arrived,
    // transferring the pool slot.
    {
        assert_and_handle_load_page_request(
            Some(PageRequest::Blank(PageId::new(CassetteId::new(1), 2))),
            &mut pool,
            &mut load_request_queue,
            &mut load_response_queue,
        );
        assert_and_handle_page_save_request(None, &mut sd, &mut save_request_first_page_queue);
        assert_and_handle_handle_save_request(
            Some(PageId::new(CassetteId::new(1), 1)),
            &mut sd,
            &mut pool,
            &mut save_request_queue,
        );
        assert_saved(0, true, &sd);
        assert_saved(1, true, &sd);
    }

    // Caller records into the third page, but is interrupted by a position
    // reset.
    {
        for _ in 0..3 {
            manager.process_configuration_updates(&mut config_queue);

            if manager.is_waiting_for_page() {
                let acquired = manager.try_fetching_next_page(&mut load_response_queue);
                if acquired {
                    manager.start_loading_next_page(&mut load_request_queue);
                }
            }

            manager.process(&[0.3f32.to_bits(); 32], &mut pool);
        }

        manager.start_saving(
            &mut save_request_queue,
            &mut save_request_first_page_queue,
            &mut pool,
        );
        manager.reset_position();
    }

    // Storage task first handles a blank page request sent from the manager
    // before it was reset, then saves the partially populated last page.
    {
        assert_and_handle_load_page_request(
            Some(PageRequest::Blank(PageId::new(CassetteId::new(1), 3))),
            &mut pool,
            &mut load_request_queue,
            &mut load_response_queue,
        );
        assert_and_handle_page_save_request(None, &mut sd, &mut save_request_first_page_queue);
        assert_and_handle_load_page_request(
            None,
            &mut pool,
            &mut load_request_queue,
            &mut load_response_queue,
        );
        assert_and_handle_handle_save_request(
            Some(PageId::new(CassetteId::new(1), 2)),
            &mut sd,
            &mut pool,
            &mut save_request_queue,
        );
        assert_saved(0, true, &sd);
        assert_saved(1, true, &sd);
        assert_saved(2, true, &sd);
    }

    // Caller records into the first page again; the want for the first page
    // is satisfied instantly from the cache, without a load round-trip.
    loop {
        manager.process_configuration_updates(&mut config_queue);

        if manager.is_waiting_for_page() {
            let acquired = manager.try_fetching_next_page(&mut load_response_queue);
            if acquired {
                manager.start_loading_next_page(&mut load_request_queue);
            }
        }

        manager.process(&[0.4f32.to_bits(); 32], &mut pool);

        if manager.has_full_page() {
            manager.start_saving(
                &mut save_request_queue,
                &mut save_request_first_page_queue,
                &mut pool,
            );
            break;
        }
    }

    // Storage task handles the load request for the previously stored second
    // page and saves the new version of the first page.
    {
        assert_and_handle_load_page_request(
            Some(PageRequest::Load(PageId::new(CassetteId::new(1), 1))),
            &mut pool,
            &mut load_request_queue,
            &mut load_response_queue,
        );
        assert_and_handle_page_save_request(
            Some(PageId::new(CassetteId::new(1), 0)),
            &mut sd,
            &mut save_request_first_page_queue,
        );
        assert_and_handle_handle_save_request(None, &mut sd, &mut pool, &mut save_request_queue);
        assert_saved(0, true, &sd);
        assert_saved(1, true, &sd);
        assert_saved(2, true, &sd);
    }

    // Control loop disarms recording.
    {
        config_queue.enqueue(Config { recording: false }).ok().unwrap();
    }

    // Caller plays the second page through without recording.
    loop {
        manager.process_configuration_updates(&mut config_queue);

        if manager.is_waiting_for_page() {
            let acquired = manager.try_fetching_next_page(&mut load_response_queue);
            if acquired {
                manager.start_loading_next_page(&mut load_request_queue);
            }
        }

        manager.process(&[0.5f32.to_bits(); 32], &mut pool);

        if manager.has_full_page() {
            manager.start_saving(
                &mut save_request_queue,
                &mut save_request_first_page_queue,
                &mut pool,
            );
            break;
        }
    }

    // Storage task handles the request for the next previously saved page.
    // No save request is expected since recording was disabled.
    {
        assert_and_handle_load_page_request(
            Some(PageRequest::Load(PageId::new(CassetteId::new(1), 2))),
            &mut pool,
            &mut load_request_queue,
            &mut load_response_queue,
        );
        assert_and_handle_page_save_request(None, &mut sd, &mut save_request_first_page_queue);
        assert_and_handle_handle_save_request(None, &mut sd, &mut pool, &mut save_request_queue);
        assert_saved(0, true, &sd);
        assert_saved(1, true, &sd);
        assert_saved(2, true, &sd);
    }
}

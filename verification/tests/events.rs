use dm_noesis::events::ClickHandler;
use std::sync::atomic::{AtomicU32, Ordering};
use std::sync::Arc;

struct Counter {
    clicks: u32,
}

impl ClickHandler for Counter {
    fn on_click(&mut self) {
        self.clicks += 1;
    }
}

#[test]
fn closure_handler_runs_once_per_click() {
    let count = Arc::new(AtomicU32::new(0));
    let seen = Arc::clone(&count);
    let mut handler = move || {
        seen.fetch_add(1, Ordering::SeqCst);
    };
    handler.on_click();
    handler.on_click();
    assert_eq!(count.load(Ordering::SeqCst), 2);
}

#[test]
fn custom_handler_sees_each_click() {
    let mut c = Counter { clicks: 0 };
    c.on_click();
    c.on_click();
    c.on_click();
    assert_eq!(c.clicks, 3);
}

#[test]
fn boxed_handlers_dispatch_dynamically() {
    let count = Arc::new(AtomicU32::new(0));
    let seen = Arc::clone(&count);
    let mut handlers: Vec<Box<dyn ClickHandler>> = vec![
        Box::new(Counter { clicks: 0 }),
        Box::new(move || {
            seen.fetch_add(5, Ordering::SeqCst);
        }),
    ];
    for h in handlers.iter_mut() {
        h.on_click();
    }
    assert_eq!(count.load(Ordering::SeqCst), 5);
}

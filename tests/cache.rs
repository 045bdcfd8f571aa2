use podcatcher::cache::Cache;
use std::cell::Cell;

#[derive(Default)]
struct InteriorlyMutableCounter(Cell<u32>);

impl InteriorlyMutableCounter {
    fn increment(&self) {
        let mut val = self.0.get();
        val += 1;
        self.0.replace(val);
    }

    fn get(&self) -> u32 {
        self.0.get()
    }
}

#[test]
fn test_single_generator_call() {
    let mut cached = Cache::<String>::default();
    let generator_count = InteriorlyMutableCounter::default();

    let mut getter = || {
        cached.get(|| {
            generator_count.increment();
            String::from("Foobar")
        })
    };
    let a = getter();
    let b = getter();
    let c = getter();

    assert_eq!(a, b);
    assert_eq!(b, c);
    assert_eq!(generator_count.get(), 1);
}

#[test]
fn cache_hands_out_the_first_value() {
    let mut cached = Cache::<u32>::default();
    let first = cached.get(|| 7);
    let second = cached.get(|| 8);
    assert_eq!(*first, 7);
    assert_eq!(*second, 7);
}

use podcatcher::config::Config;
use podcatcher::filesystem::FilesystemError;
use podcatcher::heap_buffer::HeapBuffer;
use podcatcher::progress::{bar_sizes, BarSizes};

#[test]
fn config_getters() {
    let c = Config::new(String::from("/pods"), String::from("show.json"), true, false, None);
    assert_eq!(c.destination(), "/pods");
    assert_eq!(c.config_file_path(), "show.json");
    assert!(c.pretend());
    assert!(!c.print_existing_episodes());
    assert_eq!(c.number_to_download(), usize::MAX);
    let d = Config::new(String::new(), String::new(), false, true, Some(3));
    assert_eq!(d.number_to_download(), 3);
    assert!(d.print_existing_episodes());
}

#[test]
fn heap_buffer_is_zeroed() {
    let mut b = HeapBuffer::<16>::new();
    assert_eq!(b.len(), 16);
    assert!(b.iter().all(|x| *x == 0));
    b[3] = 9;
    assert_eq!(b.as_slice()[3], 9);
}

#[test]
fn io_errors_carry_the_path() {
    let r: Result<(), FilesystemError> = FilesystemError::handling_io_error_in("some/dir", || {
        Err(std::io::Error::from(std::io::ErrorKind::NotFound))
    });
    match r {
        Err(FilesystemError::Filesystem { source, path }) => {
            assert_eq!(path, "some/dir");
            assert_eq!(source.kind(), std::io::ErrorKind::NotFound);
        }
        Ok(()) => panic!("error lost"),
    }
    let ok: Result<u8, FilesystemError> = FilesystemError::handling_io_error_in("p", || Ok(4));
    assert!(matches!(ok, Ok(4)));
}

#[test]
fn bar_widths() {
    assert_eq!(bar_sizes(10, 80), BarSizes { title: 10, bar: 64 });
    assert_eq!(bar_sizes(100, 80), BarSizes { title: 40, bar: 34 });
    assert_eq!(bar_sizes(0, 6), BarSizes { title: 0, bar: 0 });
}

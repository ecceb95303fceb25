use jaya::mode::Mode;
use jaya::mode::DEFAULT_WORKERS;

#[test]
fn one_selects_single_process() {
    assert_eq!(Mode::select(1), Mode::Single);
}

#[test]
fn zero_selects_the_default_number_of_workers() {
    assert_eq!(Mode::select(0), Mode::Multi(8));
    assert_eq!(Mode::select(0), Mode::Multi(DEFAULT_WORKERS));
}

#[test]
fn the_default_is_the_forking_library_s_own() {
    assert_eq!(Mode::select(0), Mode::Multi(prefork::DEFAULT_NUM_PROCESSES));
    assert!(prefork::DEFAULT_NUM_PROCESSES >= 1);
}

#[test]
fn a_count_above_one_is_taken_as_it_is() {
    assert_eq!(Mode::select(2), Mode::Multi(2));
    assert_eq!(Mode::select(4), Mode::Multi(4));
    assert_eq!(Mode::select(8), Mode::Multi(8));
    assert_eq!(Mode::select(u32::MAX), Mode::Multi(u32::MAX));
}

#[test]
fn single_iff_one() {
    for w in 0u32..200 {
        assert_eq!(Mode::select(w) == Mode::Single, w == 1);
    }
}

#[test]
fn a_multi_process_mode_has_at_least_one_worker() {
    for w in 0u32..200 {
        if let Mode::Multi(n) = Mode::select(w) {
            assert!(n >= 1);
        }
    }
}

#[test]
fn worker_count_of_each_mode() {
    assert_eq!(Mode::Single.worker_count(), 1);
    assert_eq!(Mode::Multi(4).worker_count(), 4);
    assert_eq!(Mode::select(0).worker_count(), 8);
}

use amdgpu_probe::adapter::{sensor_or_zero, vram_total_from, vram_used_from};
use amdgpu_probe::model::VramInfo;

#[test]
fn total_vram_is_zero_when_query_fails() {
    assert_eq!(vram_total_from(None), 0);
}

#[test]
fn used_vram_is_zero_when_query_fails() {
    assert_eq!(vram_used_from(None), 0);
}

#[test]
fn sensor_is_zero_when_read_fails() {
    assert_eq!(sensor_or_zero(None), 0);
}

#[test]
fn total_vram_reads_heap_size() {
    let m = VramInfo {
        total_heap_size: 17_163_091_968,
        heap_usage: 1_234_567,
    };
    assert_eq!(vram_total_from(Some(m)), 17_163_091_968);
}

#[test]
fn used_vram_reads_heap_usage() {
    let m = VramInfo {
        total_heap_size: 17_163_091_968,
        heap_usage: 1_234_567,
    };
    assert_eq!(vram_used_from(Some(m)), 1_234_567);
}

#[test]
fn sensor_reads_value_when_present() {
    assert_eq!(sensor_or_zero(Some(42)), 42);
    assert_eq!(sensor_or_zero(Some(0)), 0);
}

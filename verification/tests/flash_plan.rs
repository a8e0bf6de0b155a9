//! Flash chunk planning: page-sized writes and sector-wise erasure.

use daisy_audio::flash::MAX_ADDRESS;
use daisy_audio::flash::WriteChunk;
use daisy_audio::flash::plan_erase;
use daisy_audio::flash::plan_write;
use daisy_audio::flash::write_in_progress;

#[test]
fn single_byte_is_one_chunk() {
    let plan = plan_write(0, 1);
    assert_eq!(plan, vec![WriteChunk { address: 0, start: 0, len: 1 }]);
}

#[test]
fn exactly_one_page_is_one_chunk() {
    let plan = plan_write(0, 256);
    assert_eq!(plan, vec![WriteChunk { address: 0, start: 0, len: 256 }]);
}

#[test]
fn one_byte_over_a_page_splits() {
    let plan = plan_write(0, 257);
    assert_eq!(
        plan,
        vec![
            WriteChunk { address: 0, start: 0, len: 256 },
            WriteChunk { address: 256, start: 256, len: 1 },
        ],
    );
}

#[test]
fn unaligned_write_fills_the_first_page_to_its_end() {
    let plan = plan_write(100, 300);
    assert_eq!(
        plan,
        vec![
            WriteChunk { address: 100, start: 0, len: 156 },
            WriteChunk { address: 256, start: 156, len: 144 },
        ],
    );
}

#[test]
fn chunks_never_cross_pages_and_cover_the_data() {
    let plan = plan_write(1000, 5000);
    assert_eq!(plan[0].address, 1000);
    assert_eq!(plan[0].start, 0);
    let mut covered = 0u32;
    for chunk in &plan {
        assert_eq!(chunk.start, covered);
        assert!(chunk.len >= 1);
        assert!((chunk.address % 256) + chunk.len <= 256);
        covered += chunk.len;
    }
    assert_eq!(covered, 5000);
}

#[test]
fn write_wraps_at_the_top_of_the_array() {
    // the transport wraps addresses modulo the highest address
    let plan = plan_write(MAX_ADDRESS, 2);
    assert_eq!(
        plan,
        vec![
            WriteChunk { address: MAX_ADDRESS, start: 0, len: 1 },
            WriteChunk { address: 1, start: 1, len: 1 },
        ],
    );
}

#[test]
fn erase_within_one_sector_is_one_erasure() {
    assert_eq!(plan_erase(0, 4096), vec![0]);
    assert_eq!(plan_erase(0, 1), vec![0]);
    assert_eq!(plan_erase(500, 3596), vec![500]);
}

#[test]
fn erase_walks_sector_boundaries() {
    assert_eq!(plan_erase(0, 4097), vec![0, 4096]);
    assert_eq!(plan_erase(5000, 10000), vec![5000, 8192, 12288]);
}

#[test]
fn status_polling_reads_the_write_in_progress_bit() {
    assert!(write_in_progress(0x01));
    assert!(write_in_progress(0xff));
    assert!(!write_in_progress(0xfe));
    assert!(!write_in_progress(0x00));
}

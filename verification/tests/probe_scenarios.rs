//! The two documented probe scenarios, run over the whole host-side path:
//! validate the layout, pack the user data, lay out the table, and check a
//! result buffer shaped as a correct driver would fill it.

use sbt_probe::layout::LayoutError;
use sbt_probe::layout::SbtLayout;
use sbt_probe::layout::table_base_aligned;
use sbt_probe::results::CLOSEST_HIT_SENTINEL;
use sbt_probe::results::INTERSECTION_SENTINEL;
use sbt_probe::results::check_results;
use sbt_probe::table::build_table;
use sbt_probe::table::read_record;
use sbt_probe::words::le_bytes_to_words;
use sbt_probe::words::words_to_le_bytes;

#[test]
fn observed_good_offset_passes_end_to_end() {
    // Base offset 64: the documented good configuration.
    let l = SbtLayout::new(64, 96, 32, 64).unwrap();
    let handles: Vec<u8> = (0..96u32).map(|i| (200 - i) as u8).collect();
    let data_words: Vec<u32> = (0..16).collect();
    let data = words_to_le_bytes(&data_words);
    let table = build_table(&l, &handles, &data, 1000).unwrap();
    assert!(table_base_aligned(0x10000));

    // A correct driver reads the raygen record exactly as written; the
    // raygen shader copies its 16 user-data words into the result buffer.
    let raygen_record = read_record(&table, &l, 0);
    let copied_words = le_bytes_to_words(&raygen_record[32..96].to_vec());
    assert_eq!(copied_words, data_words);

    let mut results = copied_words;
    results.push(CLOSEST_HIT_SENTINEL);
    results.push(INTERSECTION_SENTINEL);
    results.extend(std::iter::repeat(0).take(232));
    assert_eq!(check_results(&results), Ok(()));
}

#[test]
fn reproduction_offset_is_rejected_before_submission() {
    // Base offset 32: the documented reproduction configuration.  It is not
    // a multiple of the mandated table-base alignment, so the layout check
    // refuses it before any byte is written or any work is submitted.
    assert_eq!(SbtLayout::new(32, 96, 32, 64), Err(LayoutError::MisalignedBase));
}

use opfp::witness::{file_stem, harvest, stage_entry, StagedFile, WitnessEntry, WitnessError, WitnessStore};

fn two_entry_store() -> WitnessStore {
    let mut store = WitnessStore::new();
    store.insert([1; 32], vec![1; 32]);
    store.insert([2; 32], vec![2; 32]);
    store
}

fn file(shard: &str, name: &str, contents: &str) -> StagedFile {
    StagedFile {
        shard: shard.to_string(),
        file_name: name.to_string(),
        contents: contents.to_string(),
    }
}

#[test]
fn staged_then_harvested_two_entries() {
    let store = two_entry_store();
    let files = store.stage();
    assert_eq!(files.len(), 2);
    let back = harvest(&files).expect("staged files decode");
    assert_eq!(back.entries().len(), 2);
    assert_eq!(back.get(&[1; 32]), Some(&vec![1; 32]));
    assert_eq!(back.get(&[2; 32]), Some(&vec![2; 32]));
    assert_eq!(back.get(&[3; 32]), None);
}

#[test]
fn staged_file_layout() {
    let mut digest = [0u8; 32];
    digest[0] = 0xab;
    digest[1] = 0xcd;
    digest[2] = 0x01;
    digest[31] = 0xff;
    let f = stage_entry(&WitnessEntry { digest, preimage: vec![0x00, 0x7f, 0xa0] });
    assert_eq!(f.shard, "abcd");
    let mut rest = String::from("01");
    rest.push_str(&"00".repeat(28));
    rest.push_str("ff.txt");
    assert_eq!(f.file_name, rest);
    assert_eq!(f.contents, "007fa0");
}

#[test]
fn digests_sharing_two_bytes_share_a_shard() {
    let mut a = [0x11u8; 32];
    let mut b = [0x22u8; 32];
    a[0] = 0x12;
    a[1] = 0x34;
    b[0] = 0x12;
    b[1] = 0x34;
    let fa = stage_entry(&WitnessEntry { digest: a, preimage: vec![] });
    let fb = stage_entry(&WitnessEntry { digest: b, preimage: vec![] });
    assert_eq!(fa.shard, "1234");
    assert_eq!(fa.shard, fb.shard);
    assert_ne!(fa.file_name, fb.file_name);
    assert_eq!(fa.contents, "");
}

#[test]
fn empty_store_stages_nothing_and_harvests_empty() {
    let store = WitnessStore::new();
    assert!(store.stage().is_empty());
    let back = harvest(&Vec::new()).expect("no files");
    assert!(back.entries().is_empty());
}

#[test]
fn insert_replaces_the_preimage_of_an_equal_digest() {
    let mut store = two_entry_store();
    store.insert([1; 32], vec![9, 9]);
    assert_eq!(store.entries().len(), 2);
    assert_eq!(store.get(&[1; 32]), Some(&vec![9, 9]));
}

#[test]
fn harvest_accepts_uppercase_and_any_extension() {
    let rest = "01".repeat(30);
    let files = vec![file("0101", &format!("{}.json", rest.to_uppercase()), "ABcd")];
    let store = harvest(&files).expect("decodes");
    assert_eq!(store.get(&[1; 32]), Some(&vec![0xab, 0xcd]));
}

#[test]
fn harvest_later_file_wins_for_equal_digest() {
    let rest = "02".repeat(30);
    let files = vec![
        file("0202", &format!("{}.txt", rest), "01"),
        file("0202", &format!("{}.bak", rest), "02"),
    ];
    let store = harvest(&files).expect("decodes");
    assert_eq!(store.entries().len(), 1);
    assert_eq!(store.get(&[2; 32]), Some(&vec![2]));
}

#[test]
fn harvest_stem_stops_at_first_dot() {
    let rest = "03".repeat(30);
    let files = vec![file("0303", &format!("{}.txt.old", rest), "33")];
    let store = harvest(&files).expect("decodes");
    assert_eq!(store.get(&[3; 32]), Some(&vec![0x33]));
}

#[test]
fn harvest_reports_malformed_digest() {
    let rest = "01".repeat(30);
    let good = file("0101", &format!("{}.txt", rest), "01");
    let files = vec![good.clone(), file("zz01", &format!("{}.txt", rest), "01")];
    assert_eq!(harvest(&files).unwrap_err(), WitnessError::MalformedDigest(1));
    let short = vec![file("0101", "0101.txt", "01")];
    assert_eq!(harvest(&short).unwrap_err(), WitnessError::MalformedDigest(0));
}

#[test]
fn harvest_reports_malformed_contents() {
    let rest = "01".repeat(30);
    let files = vec![file("0101", &format!("{}.txt", rest), "abc")];
    assert_eq!(harvest(&files).unwrap_err(), WitnessError::MalformedContents(0));
    let files = vec![file("0101", &format!("{}.txt", rest), "zz")];
    assert_eq!(harvest(&files).unwrap_err(), WitnessError::MalformedContents(0));
}

#[test]
fn file_stem_cases() {
    assert_eq!(file_stem("abc.txt"), "abc");
    assert_eq!(file_stem("a.b.c"), "a");
    assert_eq!(file_stem("abc"), "abc");
    assert_eq!(file_stem(".txt"), "");
}

#[test]
fn harvest_in_any_order_with_repeats() {
    let store = two_entry_store();
    let mut files = store.stage();
    files.reverse();
    files.push(files[0].clone());
    let back = harvest(&files).expect("staged files decode");
    assert_eq!(back.entries().len(), 2);
    assert_eq!(back.get(&[1; 32]), Some(&vec![1; 32]));
    assert_eq!(back.get(&[2; 32]), Some(&vec![2; 32]));
}

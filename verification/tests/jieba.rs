use ffi_bridge::jieba::{decode_words, hmm_flag, Jieba};

#[test]
fn from_dir_names_the_standard_files() {
    let j = Jieba::from_dir("deps/cppjieba-cabi/cppjieba/dict");
    assert_eq!(j.dict_path(), "deps/cppjieba-cabi/cppjieba/dict/jieba.dict.utf8");
    assert_eq!(j.hmm_path(), "deps/cppjieba-cabi/cppjieba/dict/hmm_model.utf8");
    assert_eq!(j.user_dict_path(), "deps/cppjieba-cabi/cppjieba/dict/user.dict.utf8");
    assert_eq!(j.idf_path(), "deps/cppjieba-cabi/cppjieba/dict/idf.utf8");
    assert_eq!(j.stop_words_path(), "deps/cppjieba-cabi/cppjieba/dict/stop_words.utf8");
}

#[test]
fn from_dir_adds_no_second_separator() {
    let j = Jieba::from_dir("/usr/share/jieba/");
    assert_eq!(j.dict_path(), "/usr/share/jieba/jieba.dict.utf8");
    assert_eq!(j.stop_words_path(), "/usr/share/jieba/stop_words.utf8");
}

#[test]
fn from_dir_of_empty_dir_is_the_bare_names() {
    let j = Jieba::from_dir("");
    assert_eq!(j.dict_path(), "jieba.dict.utf8");
    assert_eq!(j.hmm_path(), "hmm_model.utf8");
    assert_eq!(j.user_dict_path(), "user.dict.utf8");
    assert_eq!(j.idf_path(), "idf.utf8");
    assert_eq!(j.stop_words_path(), "stop_words.utf8");
}

#[test]
fn from_dir_agrees_with_path_join() {
    for dir in ["dict", "a/b", "/", "rel/", "词典"] {
        let j = Jieba::from_dir(dir);
        let expected = std::path::Path::new(dir).join("idf.utf8");
        assert_eq!(j.idf_path(), expected.to_str().unwrap());
    }
}

#[test]
fn new_keeps_the_paths() {
    let j = Jieba::new("a.dict", "b.hmm", "c.user", "d.idf", "e.stop");
    assert_eq!(j.dict_path(), "a.dict");
    assert_eq!(j.hmm_path(), "b.hmm");
    assert_eq!(j.user_dict_path(), "c.user");
    assert_eq!(j.idf_path(), "d.idf");
    assert_eq!(j.stop_words_path(), "e.stop");
}

#[test]
fn hmm_flag_values() {
    assert_eq!(hmm_flag(true), 1);
    assert_eq!(hmm_flag(false), 0);
}

#[test]
fn decode_words_of_segmented_text() {
    let raw = vec!["上海市".as_bytes().to_vec(), "南京东路".as_bytes().to_vec()];
    assert_eq!(decode_words(&raw), vec!["上海市", "南京东路"]);
}

#[test]
fn decode_words_empty() {
    let raw: Vec<Vec<u8>> = Vec::new();
    assert!(decode_words(&raw).is_empty());
    assert_eq!(decode_words(&vec![Vec::new()]), vec![String::new()]);
}

#[test]
fn decode_words_replaces_ill_formed_bytes() {
    let raw = vec![vec![b'a', 0xff, b'b'], vec![0xe4, 0xb8]];
    assert_eq!(decode_words(&raw), vec!["a\u{FFFD}b", "\u{FFFD}"]);
}

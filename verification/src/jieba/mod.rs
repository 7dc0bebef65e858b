//! Configuration and result handling of the jieba Chinese word segmenter.
//!
//! A [`Jieba`] names the five dictionary files that a native segmenter is
//! loaded from; each of them is handed over as a C string, so none may hold a
//! NUL character. The words that a native cut returns are C strings too; they
//! are turned into Rust strings by [`decode_words`].
use vstd::prelude::*;
use vstd::string::*;
use vstd::utf8::*;

pub mod raw;

verus! {

/// `s` holds no NUL character, so that it can be handed over as a C string.
pub open spec fn no_nul(s: Seq<char>) -> bool {
    forall|i: int| 0 <= i < s.len() ==> s[i] != '\0'
}

/// The path of the entry `name` in the directory `dir`, as a relative `name`
/// is adjoined to a Unix path: with one `/` between them, unless `dir` is
/// empty or already ends in `/`. The separator is always `/`; the Windows
/// rules on backslashes and drive prefixes do not apply.
pub open spec fn join_path(dir: Seq<char>, name: Seq<char>) -> Seq<char> {
    if dir.len() == 0 || dir.last() == '/' {
        dir + name
    } else {
        dir + seq!['/'] + name
    }
}

/// Adjoins the relative path `name` to `dir`.
fn join(dir: &str, name: &str) -> (path: String)
    requires
        name@.len() > 0,
        name@[0] != '/',
    ensures
        path@ == join_path(dir@, name@),
{
    let mut path = dir.to_owned();
    let n: usize = dir.unicode_len();
    if n > 0 && dir.get_char(n - 1) != '/' {
        let sep = "/";
        proof {
            reveal_strlit("/");
        }
        path.append(sep);
    }
    path.append(name);
    path
}

/// The dictionary files of a segmenter.
pub struct Jieba {
    dict_path: String,
    hmm_path: String,
    user_dict_path: String,
    idf_path: String,
    stop_words_path: String,
}

impl Jieba {
    /// Every path can be handed over as a C string.
    #[verifier::type_invariant]
    spec fn paths_are_c_strings(self) -> bool {
        &&& no_nul(self.dict_path@)
        &&& no_nul(self.hmm_path@)
        &&& no_nul(self.user_dict_path@)
        &&& no_nul(self.idf_path@)
        &&& no_nul(self.stop_words_path@)
    }

    /// The main dictionary.
    pub closed spec fn spec_dict_path(&self) -> Seq<char> {
        self.dict_path@
    }

    /// The hidden Markov model used for words that the dictionary lacks.
    pub closed spec fn spec_hmm_path(&self) -> Seq<char> {
        self.hmm_path@
    }

    /// The user's own dictionary.
    pub closed spec fn spec_user_dict_path(&self) -> Seq<char> {
        self.user_dict_path@
    }

    /// The inverse document frequencies used for keyword extraction.
    pub closed spec fn spec_idf_path(&self) -> Seq<char> {
        self.idf_path@
    }

    /// The stop words.
    pub closed spec fn spec_stop_words_path(&self) -> Seq<char> {
        self.stop_words_path@
    }

    /// A segmenter configuration with the given files.
    ///
    /// Each path is handed over as a C string, so none may hold a NUL
    /// character.
    pub fn new(
        dict_path: &str,
        hmm_path: &str,
        user_dict_path: &str,
        idf_path: &str,
        stop_words_path: &str,
    ) -> (jieba: Self)
        requires
            no_nul(dict_path@),
            no_nul(hmm_path@),
            no_nul(user_dict_path@),
            no_nul(idf_path@),
            no_nul(stop_words_path@),
        ensures
            jieba.spec_dict_path() == dict_path@,
            jieba.spec_hmm_path() == hmm_path@,
            jieba.spec_user_dict_path() == user_dict_path@,
            jieba.spec_idf_path() == idf_path@,
            jieba.spec_stop_words_path() == stop_words_path@,
    {
        Jieba {
            dict_path: dict_path.to_owned(),
            hmm_path: hmm_path.to_owned(),
            user_dict_path: user_dict_path.to_owned(),
            idf_path: idf_path.to_owned(),
            stop_words_path: stop_words_path.to_owned(),
        }
    }

    /// A segmenter configuration with the standard dictionary files of the
    /// directory `data_dir`: `jieba.dict.utf8`, `hmm_model.utf8`,
    /// `user.dict.utf8`, `idf.utf8` and `stop_words.utf8`.
    ///
    /// Each name is adjoined to `data_dir` as on Unix (see [`join_path`]):
    /// with a `/` between them unless `data_dir` is empty or ends in `/`.
    /// Windows separators and drive prefixes are not interpreted.
    pub fn from_dir(data_dir: &str) -> (jieba: Self)
        requires
            no_nul(data_dir@),
        ensures
            jieba.spec_dict_path() == join_path(data_dir@, "jieba.dict.utf8"@),
            jieba.spec_hmm_path() == join_path(data_dir@, "hmm_model.utf8"@),
            jieba.spec_user_dict_path() == join_path(data_dir@, "user.dict.utf8"@),
            jieba.spec_idf_path() == join_path(data_dir@, "idf.utf8"@),
            jieba.spec_stop_words_path() == join_path(data_dir@, "stop_words.utf8"@),
    {
        proof {
            reveal_strlit("jieba.dict.utf8");
            reveal_strlit("hmm_model.utf8");
            reveal_strlit("user.dict.utf8");
            reveal_strlit("idf.utf8");
            reveal_strlit("stop_words.utf8");
        }
        let dict_path = join(data_dir, "jieba.dict.utf8");
        let hmm_path = join(data_dir, "hmm_model.utf8");
        let user_dict_path = join(data_dir, "user.dict.utf8");
        let idf_path = join(data_dir, "idf.utf8");
        let stop_words_path = join(data_dir, "stop_words.utf8");
        Self::new(
            dict_path.as_str(),
            hmm_path.as_str(),
            user_dict_path.as_str(),
            idf_path.as_str(),
            stop_words_path.as_str(),
        )
    }
    /// The main dictionary; a C string.
    pub fn dict_path(&self) -> (path: &str)
        ensures
            path@ == self.spec_dict_path(),
            no_nul(path@),
    {
        proof {
            use_type_invariant(self);
        }
        self.dict_path.as_str()
    }

    /// The hidden Markov model; a C string.
    pub fn hmm_path(&self) -> (path: &str)
        ensures
            path@ == self.spec_hmm_path(),
            no_nul(path@),
    {
        proof {
            use_type_invariant(self);
        }
        self.hmm_path.as_str()
    }

    /// The user's dictionary; a C string.
    pub fn user_dict_path(&self) -> (path: &str)
        ensures
            path@ == self.spec_user_dict_path(),
            no_nul(path@),
    {
        proof {
            use_type_invariant(self);
        }
        self.user_dict_path.as_str()
    }

    /// The inverse document frequencies; a C string.
    pub fn idf_path(&self) -> (path: &str)
        ensures
            path@ == self.spec_idf_path(),
            no_nul(path@),
    {
        proof {
            use_type_invariant(self);
        }
        self.idf_path.as_str()
    }

    /// The stop words; a C string.
    pub fn stop_words_path(&self) -> (path: &str)
        ensures
            path@ == self.spec_stop_words_path(),
            no_nul(path@),
    {
        proof {
            use_type_invariant(self);
        }
        self.stop_words_path.as_str()
    }
}

/// The flag that tells the native cut whether to guess, with its hidden
/// Markov model, the words that the dictionary lacks: 1 for yes, 0 for no.
pub fn hmm_flag(hmm: bool) -> (flag: i32)
    ensures
        flag == (if hmm { 1i32 } else { 0i32 }),
{
    if hmm {
        1
    } else {
        0
    }
}

/// What `String::from_utf8_lossy` makes of `bytes`: their UTF-8 decoding,
/// with each ill-formed part replaced by U+FFFD.
pub uninterp spec fn utf8_lossy(bytes: Seq<u8>) -> Seq<char>;

/// Calls `String::from_utf8_lossy` and takes the string it returns.
///
/// Trusted: the result is `utf8_lossy` of the bytes, and, as the standard
/// library documents, the decoded string itself when the bytes are valid
/// UTF-8. What replaces an ill-formed part is left to the name.
#[verifier::external_body]
fn string_from_utf8_lossy(bytes: &[u8]) -> (s: String)
    ensures
        s@ == utf8_lossy(bytes@),
        valid_utf8(bytes@) ==> s@ == decode_utf8(bytes@),
{
    String::from_utf8_lossy(bytes).into_owned()
}

/// The words of a native cut, each given as the bytes of its C string
/// without the terminator, as Rust strings: each is decoded as UTF-8, with
/// any ill-formed part replaced by U+FFFD.
pub fn decode_words(raw: &Vec<Vec<u8>>) -> (words: Vec<String>)
    ensures
        words@.len() == raw@.len(),
        forall|i: int| 0 <= i < raw@.len() ==> #[trigger] words@[i]@ == utf8_lossy(raw@[i]@),
        forall|i: int|
            0 <= i < raw@.len() && valid_utf8(raw@[i]@) ==> #[trigger] words@[i]@ == decode_utf8(
                raw@[i]@,
            ),
{
    let mut words: Vec<String> = Vec::new();
    let mut i: usize = 0;
    while i < raw.len()
        invariant
            i <= raw@.len(),
            words@.len() == i,
            forall|j: int| 0 <= j < i ==> #[trigger] words@[j]@ == utf8_lossy(raw@[j]@),
            forall|j: int|
                0 <= j < i && valid_utf8(raw@[j]@) ==> #[trigger] words@[j]@ == decode_utf8(
                    raw@[j]@,
                ),
        decreases raw@.len() - i,
    {
        let word = string_from_utf8_lossy(raw[i].as_slice());
        words.push(word);
        i = i + 1;
    }
    words
}

/// A word whose bytes are the UTF-8 encoding of a string comes out of
/// [`decode_words`] as that very string.
pub proof fn lemma_decoded_word_roundtrip(word: Seq<char>, decoded: Seq<char>)
    requires
        valid_utf8(encode_utf8(word)) ==> decoded == decode_utf8(encode_utf8(word)),
    ensures
        decoded == word,
{
    encode_utf8_valid_utf8(word);
    encode_utf8_decode_utf8(word);
}

/// Adjoining a file name to a non-empty directory that does not end in `/`
/// puts exactly one `/` between them, whatever the directory's length or
/// first character.
pub proof fn lemma_join_path_inserts_separator(dir: Seq<char>, name: Seq<char>)
    requires
        dir.len() > 0,
        dir[dir.len() - 1] != '/',
    ensures
        join_path(dir, name) == dir + seq!['/'] + name,
{
}

/// Adjoining a file name to a directory that ends in `/` appends the name
/// and adds no second separator.
pub proof fn lemma_join_path_keeps_trailing_separator(dir: Seq<char>, name: Seq<char>)
    requires
        dir.len() > 0,
        dir[dir.len() - 1] == '/',
    ensures
        join_path(dir, name) == dir + name,
{
}

/// Adjoining a file name to the empty directory gives the bare name.
pub proof fn lemma_join_path_empty_dir(name: Seq<char>)
    ensures
        join_path(Seq::<char>::empty(), name) == name,
{
    assert(Seq::<char>::empty() + name =~= name);
}

/// The adjoined path names an entry inside the directory: it starts with the
/// directory, ends with the file name, the file name follows a `/` whenever
/// the directory is not empty, and at most one character is added.
pub proof fn lemma_join_path_names_entry_in_dir(dir: Seq<char>, name: Seq<char>)
    ensures
        ({
            let p = join_path(dir, name);
            &&& p.len() >= dir.len() + name.len()
            &&& p.len() <= dir.len() + name.len() + 1
            &&& p.subrange(0, dir.len() as int) == dir
            &&& p.subrange(p.len() - name.len(), p.len() as int) == name
            &&& dir.len() > 0 ==> p[p.len() - name.len() - 1] == '/'
        }),
{
    let p = join_path(dir, name);
    if dir.len() == 0 || dir.last() == '/' {
        assert(p.subrange(0, dir.len() as int) =~= dir);
        assert(p.subrange(p.len() - name.len(), p.len() as int) =~= name);
    } else {
        assert(p.subrange(0, dir.len() as int) =~= dir);
        assert(p.subrange(p.len() - name.len(), p.len() as int) =~= name);
    }
}

} // verus!

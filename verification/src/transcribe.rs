//! Transcript post-processing and speech-model locations.
//!
//! The speech engine itself is an external collaborator; this module holds
//! what the session logic needs from its surroundings: whitespace
//! normalization of transcribed text (trim and collapse runs of whitespace
//! into single spaces) and the file-system locations of the model files.

use vstd::prelude::*;

use crate::text::{is_space, is_space_char};

verus! {

/// One normalization step: fold the characters of `s` from position `i`
/// into the accumulator `acc`; `pending` records that whitespace was seen
/// since the last emitted character.
pub open spec fn norm_fold(s: Seq<char>, i: int, acc: Seq<char>, pending: bool) -> Seq<char>
    decreases s.len() - i,
{
    if 0 <= i < s.len() {
        let c = s[i];
        if is_space_char(c) {
            norm_fold(s, i + 1, acc, true)
        } else if pending && acc.len() > 0 {
            norm_fold(s, i + 1, acc + seq![' ', c], false)
        } else {
            norm_fold(s, i + 1, acc.push(c), false)
        }
    } else {
        acc
    }
}

/// `s` with leading and trailing whitespace removed and every run of
/// whitespace inside collapsed to one space.
pub open spec fn norm(s: Seq<char>) -> Seq<char> {
    norm_fold(s, 0, seq![], false)
}

/// A normalized text: every whitespace character in it is a single space
/// strictly between two non-whitespace characters.
pub open spec fn is_normal(s: Seq<char>) -> bool {
    forall|i: int|
        0 <= i < s.len() && is_space_char(#[trigger] s[i]) ==> s[i] == ' ' && 0 < i && i + 1
            < s.len() && !is_space_char(s[i - 1]) && !is_space_char(s[i + 1])
}

/// Normalize whitespace: trim the text and collapse interior whitespace
/// runs to single spaces. The empty result means "no speech".
pub fn normalize_whitespace(text: &str) -> (r: String)
    ensures
        r@ == norm(text@),
{
    let n = text.unicode_len();
    let mut out = String::new();
    let mut pending = false;
    let mut i: usize = 0;
    while i < n
        invariant
            i <= n,
            n == text@.len(),
            norm(text@) == norm_fold(text@, i as int, out@, pending),
        decreases n - i,
    {
        let c = text.get_char(i);
        if is_space(c) {
            pending = true;
        } else {
            let ghost pre = out@;
            if pending && out.unicode_len() > 0 {
                out.push(' ');
                out.push(c);
                proof {
                    assert(out@ =~= pre + seq![' ', c]);
                }
            } else {
                out.push(c);
            }
            pending = false;
        }
        i += 1;
    }
    out
}

proof fn lemma_fold_preserves_normal(s: Seq<char>, i: int, acc: Seq<char>, pending: bool)
    requires
        is_normal(acc),
    ensures
        is_normal(norm_fold(s, i, acc, pending)),
    decreases s.len() - i,
{
    if 0 <= i < s.len() {
        let c = s[i];
        if is_space_char(c) {
            lemma_fold_preserves_normal(s, i + 1, acc, true);
        } else if pending && acc.len() > 0 {
            let acc2 = acc + seq![' ', c];
            assert(is_normal(acc2)) by {
                assert(!is_space_char(acc[acc.len() - 1]));
                assert forall|k: int|
                    0 <= k < acc2.len() && is_space_char(#[trigger] acc2[k]) implies acc2[k] == ' '
                    && 0 < k && k + 1 < acc2.len() && !is_space_char(acc2[k - 1]) && !is_space_char(
                    acc2[k + 1],
                ) by {
                    if k < acc.len() {
                        assert(acc2[k] == acc[k]);
                        assert(acc2[k - 1] == acc[k - 1]);
                        assert(acc2[k + 1] == if k + 1 < acc.len() {
                            acc[k + 1]
                        } else {
                            ' '
                        });
                    } else if k == acc.len() {
                        assert(acc2[k] == ' ');
                        assert(acc2[k - 1] == acc[acc.len() - 1]);
                        assert(acc2[k + 1] == c);
                    } else {
                        assert(acc2[k] == c);
                    }
                }
            }
            lemma_fold_preserves_normal(s, i + 1, acc2, false);
        } else {
            let acc2 = acc.push(c);
            assert(is_normal(acc2)) by {
                assert forall|k: int|
                    0 <= k < acc2.len() && is_space_char(#[trigger] acc2[k]) implies acc2[k] == ' '
                    && 0 < k && k + 1 < acc2.len() && !is_space_char(acc2[k - 1]) && !is_space_char(
                    acc2[k + 1],
                ) by {
                    if k < acc.len() {
                        assert(acc2[k] == acc[k]);
                    } else {
                        assert(acc2[k] == c);
                    }
                }
            }
            lemma_fold_preserves_normal(s, i + 1, acc2, false);
        }
    }
}

/// Normalization always yields a normalized text.
pub proof fn lemma_norm_is_normal(s: Seq<char>)
    ensures
        is_normal(norm(s)),
{
    lemma_fold_preserves_normal(s, 0, seq![], false);
}

proof fn lemma_fold_of_normal(t: Seq<char>, i: int)
    requires
        is_normal(t),
        0 <= i <= t.len(),
    ensures
        (i == 0 || !is_space_char(t[i - 1])) ==> norm_fold(t, i, t.take(i), false) == t,
        (0 < i && is_space_char(t[i - 1])) ==> norm_fold(t, i, t.take(i - 1), true) == t,
    decreases t.len() - i,
{
    if i == t.len() {
        assert(t.take(i) =~= t);
    } else {
        lemma_fold_of_normal(t, i + 1);
        let c = t[i];
        if i == 0 || !is_space_char(t[i - 1]) {
            if is_space_char(c) {
                assert(t.take(i + 1 - 1) =~= t.take(i));
            } else {
                assert(t.take(i).push(c) =~= t.take(i + 1));
            }
        }
        if 0 < i && is_space_char(t[i - 1]) {
            assert(!is_space_char(c));
            assert(t[i - 1] == ' ');
            assert(0 < i - 1);
            assert(t.take(i - 1).len() > 0);
            assert(t.take(i - 1) + seq![' ', c] =~= t.take(i + 1));
        }
    }
}

/// Normalizing an already-normalized text returns it unchanged.
pub proof fn lemma_norm_of_normal(t: Seq<char>)
    requires
        is_normal(t),
    ensures
        norm(t) == t,
{
    lemma_fold_of_normal(t, 0);
    assert(t.take(0) =~= Seq::<char>::empty());
}

/// Whitespace normalization is idempotent.
pub proof fn lemma_norm_idempotent(s: Seq<char>)
    ensures
        norm(norm(s)) == norm(s),
{
    lemma_norm_is_normal(s);
    lemma_norm_of_normal(norm(s));
}

/// Relies on `dirs::data_local_dir`: the user's local data directory, if
/// the platform defines one. The result depends on the environment, so
/// nothing is promised of it.
#[verifier::external_body]
pub(crate) fn data_local_dir_opt() -> (r: Option<String>) {
    dirs::data_local_dir().map(|p| p.to_string_lossy().into_owned())
}

/// The directory where speech-model files are stored: the user's local
/// data directory (or `~/.local/share` when the platform defines none),
/// under this application's model subdirectory.
pub fn default_model_dir() -> (r: String)
    ensures
        exists|base: Seq<char>| r@ == base + "/escucha/models"@,
{
    let base: String = match data_local_dir_opt() {
        Some(d) => d,
        None => "~/.local/share".to_owned(),
    };
    let ghost b = base@;
    let mut out = base;
    out.append("/escucha/models");
    proof {
        assert(out@ == b + "/escucha/models"@);
    }
    out
}

/// The file name a model is stored under.
pub fn model_file_name(model_name: &str) -> (r: String)
    ensures
        r@ == "ggml-"@ + model_name@ + ".bin"@,
{
    let mut out = String::new();
    out.append("ggml-");
    out.append(model_name);
    out.append(".bin");
    out
}

/// The path a model with the given name is stored at, under the default
/// model directory.
pub fn model_path(model_name: &str) -> (r: String)
    ensures
        exists|base: Seq<char>|
            r@ == base + "/escucha/models/"@ + "ggml-"@ + model_name@ + ".bin"@,
{
    let mut out = default_model_dir();
    let ghost dir = out@;
    let ghost base = choose|b: Seq<char>| dir == b + "/escucha/models"@;
    out.append("/");
    let name = model_file_name(model_name);
    out.append(name.as_str());
    proof {
        reveal_strlit("/escucha/models");
        reveal_strlit("/");
        reveal_strlit("/escucha/models/");
        assert(out@ =~= base + "/escucha/models/"@ + "ggml-"@ + model_name@ + ".bin"@);
    }
    out
}


/// A downloaded model file is plausible only from one megabyte up; anything
/// smaller is taken for a failed download and discarded.
pub fn download_size_acceptable(size: u64) -> (r: bool)
    ensures
        r == (size >= 1000000),
{
    size >= 1_000_000
}

/// The URL a model with the given name is downloaded from.
pub fn model_url(model_name: &str) -> (r: String)
    ensures
        r@ == "https://huggingface.co/ggerganov/whisper.cpp/resolve/main/ggml-"@ + model_name@
            + ".bin"@,
{
    let mut out = String::new();
    out.append("https://huggingface.co/ggerganov/whisper.cpp/resolve/main/ggml-");
    out.append(model_name);
    out.append(".bin");
    proof {
        assert(out@ =~= "https://huggingface.co/ggerganov/whisper.cpp/resolve/main/ggml-"@
            + model_name@ + ".bin"@);
    }
    out
}

} // verus!

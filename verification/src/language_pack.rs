use vstd::prelude::*;
use vstd::string::StringExecFns;
use vstd::utf8::encode_utf8;
use crate::error::{SpeechError, SpeechErrorView};

verus! {

/// The folder, inside a version of a language pack, that holds the models.
pub open spec fn models_folder() -> Seq<char> {
    "SODAModels"@
}

/// Dictionary order on byte strings: the first byte that differs decides,
/// and a string comes before every longer string that starts with it.
pub open spec fn bytes_le(a: Seq<u8>, b: Seq<u8>) -> bool
    decreases a.len(),
{
    if a.len() == 0 {
        true
    } else if b.len() == 0 {
        false
    } else if a[0] != b[0] {
        a[0] < b[0]
    } else {
        bytes_le(a.skip(1), b.skip(1))
    }
}

/// Every byte string is at or before itself.
pub proof fn lemma_bytes_le_reflexive(a: Seq<u8>)
    ensures
        bytes_le(a, a),
    decreases a.len(),
{
    if a.len() > 0 {
        lemma_bytes_le_reflexive(a.skip(1));
    }
}

/// Of two byte strings one is at or before the other.
pub proof fn lemma_bytes_le_total(a: Seq<u8>, b: Seq<u8>)
    ensures
        bytes_le(a, b) || bytes_le(b, a),
    decreases a.len(),
{
    if a.len() > 0 && b.len() > 0 && a[0] == b[0] {
        lemma_bytes_le_total(a.skip(1), b.skip(1));
    }
}

/// Two byte strings that are each at or before the other are the same.
pub proof fn lemma_bytes_le_antisymmetric(a: Seq<u8>, b: Seq<u8>)
    requires
        bytes_le(a, b),
        bytes_le(b, a),
    ensures
        a == b,
    decreases a.len(),
{
    if a.len() == 0 || b.len() == 0 {
        assert(a =~= b);
    } else {
        lemma_bytes_le_antisymmetric(a.skip(1), b.skip(1));
        assert(a =~= seq![a[0]] + a.skip(1));
        assert(b =~= seq![b[0]] + b.skip(1));
    }
}

/// What is at or before something that is at or before a third is at or
/// before the third.
pub proof fn lemma_bytes_le_transitive(a: Seq<u8>, b: Seq<u8>, c: Seq<u8>)
    requires
        bytes_le(a, b),
        bytes_le(b, c),
    ensures
        bytes_le(a, c),
    decreases a.len(),
{
    if a.len() > 0 && b.len() > 0 && c.len() > 0 && a[0] == b[0] && b[0] == c[0] {
        lemma_bytes_le_transitive(a.skip(1), b.skip(1), c.skip(1));
    }
}

/// Compares two byte strings in dictionary order.
pub fn bytes_at_or_before(a: &[u8], b: &[u8]) -> (le: bool)
    ensures
        le == bytes_le(a@, b@),
{
    let mut i: usize = 0;
    assert(a@.skip(0) =~= a@ && b@.skip(0) =~= b@);
    loop
        invariant
            i <= a.len(),
            i <= b.len(),
            bytes_le(a@, b@) == bytes_le(a@.skip(i as int), b@.skip(i as int)),
        decreases a.len() - i,
    {
        if i == a.len() {
            return true;
        }
        if i == b.len() {
            return false;
        }
        if a[i] != b[i] {
            return a[i] < b[i];
        }
        assert(a@.skip(i as int).skip(1) =~= a@.skip(i + 1));
        assert(b@.skip(i as int).skip(1) =~= b@.skip(i + 1));
        i += 1;
    }
}

/// The names as the byte strings by which they are ordered.
pub open spec fn name_bytes(names: Seq<Seq<char>>) -> Seq<Seq<u8>> {
    Seq::new(names.len(), |i: int| encode_utf8(names[i]))
}

/// `index` is the place of the greatest name, and of the first of them
/// where the greatest occurs more than once.
pub open spec fn is_latest(names: Seq<Seq<u8>>, index: int) -> bool {
    &&& 0 <= index < names.len()
    &&& forall|j: int| 0 <= j < names.len() ==> bytes_le(#[trigger] names[j], names[index])
    &&& forall|j: int| 0 <= j < index ==> (#[trigger] names[j]) != names[index]
}

/// Only one place is the latest.
pub proof fn lemma_latest_is_unique(names: Seq<Seq<u8>>, a: int, b: int)
    requires
        is_latest(names, a),
        is_latest(names, b),
    ensures
        a == b,
{
    assert(bytes_le(names[a], names[b]));
    assert(bytes_le(names[b], names[a]));
    lemma_bytes_le_antisymmetric(names[a], names[b]);
}

/// The place of the latest version among the names of the version folders:
/// the greatest name in dictionary order. `None` exactly when there is no
/// name.
pub fn latest_version(versions: &Vec<String>) -> (latest: Option<usize>)
    ensures
        match latest {
            Some(index) => is_latest(name_bytes(versions.deep_view()), index as int),
            None => versions.len() == 0,
        },
{
    if versions.len() == 0 {
        return None;
    }
    let ghost names = name_bytes(versions.deep_view());
    assert forall|k: int| 0 <= k < versions.len() implies #[trigger] names[k] == encode_utf8(
        versions@[k]@,
    ) by {
        assert(versions.deep_view()[k] == versions@[k]@);
    }
    let mut best: usize = 0;
    let mut i: usize = 1;
    proof {
        lemma_bytes_le_reflexive(names[0]);
    }
    while i < versions.len()
        invariant
            1 <= i <= versions.len(),
            best < i,
            names.len() == versions.len(),
            forall|k: int| 0 <= k < versions.len() ==> #[trigger] names[k] == encode_utf8(versions@[k]@),
            forall|j: int| 0 <= j < i ==> bytes_le(#[trigger] names[j], names[best as int]),
            forall|j: int| 0 <= j < best ==> (#[trigger] names[j]) != names[best as int],
        decreases versions.len() - i,
    {
        let candidate = versions[i].as_str().as_bytes();
        let current = versions[best].as_str().as_bytes();
        assert(candidate@ == names[i as int]);
        assert(current@ == names[best as int]);
        if !bytes_at_or_before(candidate, current) {
            proof {
                lemma_bytes_le_total(names[i as int], names[best as int]);
                lemma_bytes_le_reflexive(names[i as int]);
                assert forall|j: int| 0 <= j < i + 1 implies bytes_le(
                    #[trigger] names[j],
                    names[i as int],
                ) by {
                    if j < i {
                        lemma_bytes_le_transitive(names[j], names[best as int], names[i as int]);
                    }
                }
                assert forall|j: int| 0 <= j < i implies (#[trigger] names[j]) != names[i as int] by {
                    assert(bytes_le(names[j], names[best as int]));
                }
            }
            best = i;
        }
        i += 1;
    }
    Some(best)
}

/// The parts of the path to a language's models: the language's folder, the
/// latest of its version folders, and the models folder inside that. Fails
/// with [`SpeechError::LanguageFolderError`], naming the language's folder,
/// exactly when the folder could not be listed (`versions` is `None`) or holds
/// no version.
pub fn language_pack_path(language_folder: &str, versions: Option<Vec<String>>) -> (path: Result<
    Vec<String>,
    SpeechError,
>)
    ensures
        match path {
            Ok(parts) => versions matches Some(names) && exists|index: int|
                is_latest(name_bytes(names.deep_view()), index) && parts.deep_view() == seq![
                    language_folder@,
                    names.deep_view()[index],
                    models_folder(),
                ],
            Err(e) => (versions matches Some(names) ==> names.len() == 0) && e@
                == SpeechErrorView::LanguageFolderError(language_folder@),
        },
{
    let names = match versions {
        Some(names) => names,
        None => {
            return Err(SpeechError::LanguageFolderError(language_folder.to_owned()));
        },
    };
    match latest_version(&names) {
        None => Err(SpeechError::LanguageFolderError(language_folder.to_owned())),
        Some(index) => {
            let mut parts: Vec<String> = Vec::new();
            parts.push(language_folder.to_owned());
            parts.push(names[index].clone());
            parts.push(String::from_str("SODAModels"));
            assert(names.deep_view()[index as int] == names@[index as int]@);
            assert(parts.deep_view() =~= seq![
                language_folder@,
                names.deep_view()[index as int],
                models_folder(),
            ]);
            Ok(parts)
        },
    }
}

} // verus!

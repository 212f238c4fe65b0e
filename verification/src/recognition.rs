//! Mapping of decoded OCR and table-structure token ids to text.

use vstd::prelude::*;
use vstd::string::StringExecFns;

use crate::multimodal_presets::MultimodalProcessorError;

verus! {

/// The text of token ids `ids` over a vocabulary: the vocabulary entries of
/// the ids, back to back.
pub open spec fn joined_tokens(ids: Seq<usize>, vocabulary: Seq<&str>) -> Seq<char>
    decreases ids.len(),
{
    if ids.len() == 0 {
        Seq::empty()
    } else {
        joined_tokens(ids.drop_last(), vocabulary) + vocabulary[ids.last() as int]@
    }
}

/// Whether every token id names a vocabulary entry.
pub open spec fn all_known(ids: Seq<usize>, vocabulary_len: nat) -> bool {
    forall|i: int| 0 <= i < ids.len() ==> (#[trigger] ids[i]) < vocabulary_len
}

/// Whether `i` is the first token id outside a vocabulary of `vocabulary_len` entries.
pub open spec fn first_unknown(ids: Seq<usize>, vocabulary_len: nat, i: int) -> bool {
    &&& 0 <= i < ids.len()
    &&& ids[i] >= vocabulary_len
    &&& forall|j: int| 0 <= j < i ==> (#[trigger] ids[j]) < vocabulary_len
}

/// The error for the first token id outside the vocabulary.
pub open spec fn unknown_token_error(ids: Seq<usize>, vocabulary_len: nat, r: MultimodalProcessorError) -> bool {
    exists|i: int|
        first_unknown(ids, vocabulary_len, i) && r == (MultimodalProcessorError::VocabularyIndex {
            index: #[trigger] ids[i],
            vocabulary_len: vocabulary_len as usize,
        })
}

/// Joins the vocabulary entries of decoded OCR token ids into the recognized
/// text; the first id outside the vocabulary is rejected.
pub fn recognized_text(token_ids: &[usize], characters: &[&str]) -> (r: Result<String, MultimodalProcessorError>)
    ensures
        all_known(token_ids@, characters@.len()) ==> (r matches Ok(text) && text@ == joined_tokens(
            token_ids@,
            characters@,
        )),
        !all_known(token_ids@, characters@.len()) ==> (r matches Err(e) && unknown_token_error(
            token_ids@,
            characters@.len(),
            e,
        )),
{
    let mut text = String::from_str("");
    proof {
        reveal_strlit("");
    }
    let mut i: usize = 0;
    while i < token_ids.len()
        invariant
            i <= token_ids@.len(),
            all_known(token_ids@.subrange(0, i as int), characters@.len()),
            text@ == joined_tokens(token_ids@.subrange(0, i as int), characters@),
        decreases token_ids@.len() - i,
    {
        let index = token_ids[i];
        if index >= characters.len() {
            proof {
                assert(first_unknown(token_ids@, characters@.len(), i as int)) by {
                    assert forall|j: int| 0 <= j < i implies #[trigger] token_ids@[j] < characters@.len() by {
                        assert(token_ids@.subrange(0, i as int)[j] == token_ids@[j]);
                    }
                }
            }
            return Err(MultimodalProcessorError::VocabularyIndex { index, vocabulary_len: characters.len() });
        }
        text.append(characters[index]);
        proof {
            let next = token_ids@.subrange(0, i + 1);
            assert(next.drop_last() =~= token_ids@.subrange(0, i as int));
            assert(all_known(next, characters@.len())) by {
                assert forall|j: int| 0 <= j < next.len() implies #[trigger] next[j] < characters@.len() by {
                    if j < i {
                        assert(token_ids@.subrange(0, i as int)[j] == next[j]);
                    }
                }
            }
        }
        i = i + 1;
    }
    assert(token_ids@.subrange(0, token_ids@.len() as int) =~= token_ids@);
    Ok(text)
}

/// The HTML structure of a decoded table: the document, body and table
/// opening tags, the vocabulary entries of the token ids, and the closing tags.
pub open spec fn table_structure_view(ids: Seq<usize>, vocabulary: Seq<&str>) -> Seq<Seq<char>> {
    seq!["<html>"@, "<body>"@, "<table>"@] + Seq::new(ids.len(), |i: int| vocabulary[ids[i] as int]@) + seq![
        "</table>"@,
        "</body>"@,
        "</html>"@,
    ]
}

/// Builds the HTML structure tokens of a decoded table; the first id outside
/// the vocabulary is rejected.
pub fn table_structure(token_ids: &[usize], vocabulary: &[&str]) -> (r: Result<Vec<String>, MultimodalProcessorError>)
    ensures
        all_known(token_ids@, vocabulary@.len()) ==> (r matches Ok(structure) && structure@.map_values(
            |s: String| s@,
        ) == table_structure_view(token_ids@, vocabulary@)),
        !all_known(token_ids@, vocabulary@.len()) ==> (r matches Err(e) && unknown_token_error(
            token_ids@,
            vocabulary@.len(),
            e,
        )),
{
    let mut structure: Vec<String> = Vec::new();
    structure.push(String::from_str("<html>"));
    structure.push(String::from_str("<body>"));
    structure.push(String::from_str("<table>"));
    let ghost opening = seq!["<html>"@, "<body>"@, "<table>"@];
    let mut i: usize = 0;
    while i < token_ids.len()
        invariant
            i <= token_ids@.len(),
            structure@.len() == 3 + i,
            all_known(token_ids@.subrange(0, i as int), vocabulary@.len()),
            structure@.map_values(|s: String| s@) == opening + Seq::new(
                i as nat,
                |k: int| vocabulary@[token_ids@[k] as int]@,
            ),
        decreases token_ids@.len() - i,
    {
        let index = token_ids[i];
        if index >= vocabulary.len() {
            proof {
                assert(first_unknown(token_ids@, vocabulary@.len(), i as int)) by {
                    assert forall|j: int| 0 <= j < i implies #[trigger] token_ids@[j] < vocabulary@.len() by {
                        assert(token_ids@.subrange(0, i as int)[j] == token_ids@[j]);
                    }
                }
            }
            return Err(MultimodalProcessorError::VocabularyIndex { index, vocabulary_len: vocabulary.len() });
        }
        let ghost before = structure@.map_values(|s: String| s@);
        structure.push(String::from_str(vocabulary[index]));
        proof {
            assert(structure@.map_values(|s: String| s@) =~= before.push(vocabulary@[index as int]@));
            assert(opening + Seq::new((i + 1) as nat, |k: int| vocabulary@[token_ids@[k] as int]@) =~= (opening
                + Seq::new(i as nat, |k: int| vocabulary@[token_ids@[k] as int]@)).push(
                vocabulary@[index as int]@,
            ));
            let next = token_ids@.subrange(0, i + 1);
            assert(all_known(next, vocabulary@.len())) by {
                assert forall|j: int| 0 <= j < next.len() implies #[trigger] next[j] < vocabulary@.len() by {
                    if j < i {
                        assert(token_ids@.subrange(0, i as int)[j] == next[j]);
                    }
                }
            }
        }
        i = i + 1;
    }
    assert(token_ids@.subrange(0, token_ids@.len() as int) =~= token_ids@);
    let ghost middle = structure@.map_values(|s: String| s@);
    structure.push(String::from_str("</table>"));
    structure.push(String::from_str("</body>"));
    structure.push(String::from_str("</html>"));
    proof {
        assert(structure@.map_values(|s: String| s@) =~= middle + seq!["</table>"@, "</body>"@, "</html>"@]);
        assert(Seq::new(i as nat, |k: int| vocabulary@[token_ids@[k] as int]@) =~= Seq::new(
            token_ids@.len(),
            |k: int| vocabulary@[token_ids@[k] as int]@,
        ));
    }
    Ok(structure)
}

} // verus!

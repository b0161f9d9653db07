use vstd::prelude::*;
use vstd::string::*;

verus! {

/// Name of all the models usable.
#[derive(Clone, Copy, PartialEq, Eq, Structural, Debug)]
pub enum Models {
    TextSimilarityAda001,
    TextSimilarityBabbage001,
    TextSimilarityCurie001,
    TextSimilarityDavinci001,
    TextSearchAdaDoc001,
    TextSearchAdaQuery001,
    TextSearchBabbageDoc001,
    TextSearchBabbageQuery001,
    TextSearchCurieDoc001,
    TextSearchCurieQuery001,
    TextSearchDavinciDoc001,
    TextSearchDavinciQuery001,
    CodeSearchAdaCode001,
    CodeSearchAdaText001,
    CodeSearchBabbageCode001,
    CodeSearchBabbageText001,
}

impl Models {
    /// The external identifier of the model.
    pub open spec fn spec_name(self) -> Seq<char> {
        match self {
            Models::TextSimilarityAda001 => "text-similarity-ada-001"@,
            Models::TextSimilarityBabbage001 => "text-similarity-babbage-001"@,
            Models::TextSimilarityCurie001 => "text-similarity-curie-001"@,
            Models::TextSimilarityDavinci001 => "text-similarity-davinci-001"@,
            Models::TextSearchAdaDoc001 => "text-search-ada-doc-001"@,
            Models::TextSearchAdaQuery001 => "text-search-ada-query-001"@,
            Models::TextSearchBabbageDoc001 => "text-search-babbage-doc-001"@,
            Models::TextSearchBabbageQuery001 => "text-search-babbage-query-001"@,
            Models::TextSearchCurieDoc001 => "text-search-curie-doc-001"@,
            Models::TextSearchCurieQuery001 => "text-search-curie-query-001"@,
            Models::TextSearchDavinciDoc001 => "text-search-davinci-doc-001"@,
            Models::TextSearchDavinciQuery001 => "text-search-davinci-query-001"@,
            Models::CodeSearchAdaCode001 => "code-search-ada-code-001"@,
            Models::CodeSearchAdaText001 => "code-search-ada-text-001"@,
            Models::CodeSearchBabbageCode001 => "code-search-babbage-code-001"@,
            Models::CodeSearchBabbageText001 => "code-search-babbage-text-001"@,
        }
    }

    /// Position of the model in the declaration order.
    pub open spec fn ordinal(self) -> int {
        match self {
            Models::TextSimilarityAda001 => 0,
            Models::TextSimilarityBabbage001 => 1,
            Models::TextSimilarityCurie001 => 2,
            Models::TextSimilarityDavinci001 => 3,
            Models::TextSearchAdaDoc001 => 4,
            Models::TextSearchAdaQuery001 => 5,
            Models::TextSearchBabbageDoc001 => 6,
            Models::TextSearchBabbageQuery001 => 7,
            Models::TextSearchCurieDoc001 => 8,
            Models::TextSearchCurieQuery001 => 9,
            Models::TextSearchDavinciDoc001 => 10,
            Models::TextSearchDavinciQuery001 => 11,
            Models::CodeSearchAdaCode001 => 12,
            Models::CodeSearchAdaText001 => 13,
            Models::CodeSearchBabbageCode001 => 14,
            Models::CodeSearchBabbageText001 => 15,
        }
    }

    /// The model whose identifier is `s`, if any.
    pub open spec fn spec_from_name(s: Seq<char>) -> Option<Models> {
        if exists|m: Models| #[trigger] m.spec_name() == s {
            Some(choose|m: Models| #[trigger] m.spec_name() == s)
        } else {
            None
        }
    }

    /// Every model, in declaration order.
    pub fn all() -> (r: Vec<Models>)
        ensures
            r@.len() == 16,
            forall|m: Models| #[trigger] r@[m.ordinal()] == m,
    {
        vec![
            Models::TextSimilarityAda001,
            Models::TextSimilarityBabbage001,
            Models::TextSimilarityCurie001,
            Models::TextSimilarityDavinci001,
            Models::TextSearchAdaDoc001,
            Models::TextSearchAdaQuery001,
            Models::TextSearchBabbageDoc001,
            Models::TextSearchBabbageQuery001,
            Models::TextSearchCurieDoc001,
            Models::TextSearchCurieQuery001,
            Models::TextSearchDavinciDoc001,
            Models::TextSearchDavinciQuery001,
            Models::CodeSearchAdaCode001,
            Models::CodeSearchAdaText001,
            Models::CodeSearchBabbageCode001,
            Models::CodeSearchBabbageText001,
        ]
    }

    /// The model whose external identifier is `name`, if there is one.
    pub fn from_name(name: &String) -> (r: Option<Models>)
        ensures
            r == Models::spec_from_name(name@),
            r matches Some(m) ==> m.spec_name() == name@,
    {
        let all = Models::all();
        let mut i: usize = 0;
        while i < all.len()
            invariant
                all@.len() == 16,
                forall|m: Models| #[trigger] all@[m.ordinal()] == m,
                forall|j: int| 0 <= j < i ==> (#[trigger] all@[j]).spec_name() != name@,
            decreases all.len() - i,
        {
            let m = all[i];
            let candidate = m.to_name();
            if candidate == *name {
                proof {
                    assert forall|k: Models| #[trigger] k.spec_name() == name@ implies k == m by {
                        if k != m {
                            lemma_names_distinct(k, m);
                        }
                    }
                }
                return Some(m);
            }
            i = i + 1;
        }
        proof {
            assert forall|k: Models| #[trigger] k.spec_name() != name@ by {
                assert(all@[k.ordinal()] == k);
                assert(0 <= k.ordinal() < 16);
            }
        }
        None
    }

    /// Return the name in String of the models
    pub fn to_name(self) -> (r: String)
        ensures
            r@ == self.spec_name(),
    {
        match self {
            Models::TextSimilarityAda001 => String::from_str("text-similarity-ada-001"),
            Models::TextSimilarityBabbage001 => String::from_str("text-similarity-babbage-001"),
            Models::TextSimilarityCurie001 => String::from_str("text-similarity-curie-001"),
            Models::TextSimilarityDavinci001 => String::from_str("text-similarity-davinci-001"),
            Models::TextSearchAdaDoc001 => String::from_str("text-search-ada-doc-001"),
            Models::TextSearchAdaQuery001 => String::from_str("text-search-ada-query-001"),
            Models::TextSearchBabbageDoc001 => String::from_str("text-search-babbage-doc-001"),
            Models::TextSearchBabbageQuery001 => String::from_str("text-search-babbage-query-001"),
            Models::TextSearchCurieDoc001 => String::from_str("text-search-curie-doc-001"),
            Models::TextSearchCurieQuery001 => String::from_str("text-search-curie-query-001"),
            Models::TextSearchDavinciDoc001 => String::from_str("text-search-davinci-doc-001"),
            Models::TextSearchDavinciQuery001 => String::from_str("text-search-davinci-query-001"),
            Models::CodeSearchAdaCode001 => String::from_str("code-search-ada-code-001"),
            Models::CodeSearchAdaText001 => String::from_str("code-search-ada-text-001"),
            Models::CodeSearchBabbageCode001 => String::from_str("code-search-babbage-code-001"),
            Models::CodeSearchBabbageText001 => String::from_str("code-search-babbage-text-001"),
        }
    }
}

/// Distinct models carry distinct external identifiers.
pub proof fn lemma_names_distinct(a: Models, b: Models)
    requires
        a != b,
    ensures
        a.spec_name() != b.spec_name(),
{
    reveal_strlit("text-similarity-ada-001");
    reveal_strlit("text-similarity-babbage-001");
    reveal_strlit("text-similarity-curie-001");
    reveal_strlit("text-similarity-davinci-001");
    reveal_strlit("text-search-ada-doc-001");
    reveal_strlit("text-search-ada-query-001");
    reveal_strlit("text-search-babbage-doc-001");
    reveal_strlit("text-search-babbage-query-001");
    reveal_strlit("text-search-curie-doc-001");
    reveal_strlit("text-search-curie-query-001");
    reveal_strlit("text-search-davinci-doc-001");
    reveal_strlit("text-search-davinci-query-001");
    reveal_strlit("code-search-ada-code-001");
    reveal_strlit("code-search-ada-text-001");
    reveal_strlit("code-search-babbage-code-001");
    reveal_strlit("code-search-babbage-text-001");
    let sa = a.spec_name();
    let sb = b.spec_name();
    // Each pair differs in its length or at one of these positions.
    assert(sa.len() != sb.len() || sa[12] != sb[12] || sa[13] != sb[13] || sa[16] != sb[16]
        || sa[17] != sb[17] || sa[19] != sb[19] || sa[20] != sb[20] || sa[24] != sb[24]);
}

} // verus!

use vstd::prelude::*;

verus! {

/// The closed set of emotional categories a suggestion can carry.
#[derive(Debug, Clone, Copy, PartialEq, Eq, Structural)]
pub enum MemeType {
    Happiness,
    Love,
    Anger,
    Sorrow,
    Hate,
    Surprise,
}

/// The wire label of each meme type.
pub open spec fn meme_label(t: MemeType) -> Seq<char> {
    match t {
        MemeType::Happiness => "happiness"@,
        MemeType::Love => "love"@,
        MemeType::Anger => "anger"@,
        MemeType::Sorrow => "sorrow"@,
        MemeType::Hate => "hate"@,
        MemeType::Surprise => "surprise"@,
    }
}

/// The meme type whose label is `s`, if any.
pub open spec fn meme_of_label(s: Seq<char>) -> Option<MemeType> {
    if exists|t: MemeType| meme_label(t) == s {
        Some(choose|t: MemeType| meme_label(t) == s)
    } else {
        None
    }
}

/// Every meme type, each once.
pub open spec fn all_meme_types() -> Seq<MemeType> {
    seq![
        MemeType::Happiness,
        MemeType::Love,
        MemeType::Anger,
        MemeType::Sorrow,
        MemeType::Hate,
        MemeType::Surprise,
    ]
}

impl MemeType {
    /// Every meme type, each once.
    pub fn all() -> (r: Vec<MemeType>)
        ensures
            r@ == all_meme_types(),
    {
        let r: Vec<MemeType> = vec![
            MemeType::Happiness,
            MemeType::Love,
            MemeType::Anger,
            MemeType::Sorrow,
            MemeType::Hate,
            MemeType::Surprise,
        ];
        proof {
            assert(r@ =~= all_meme_types());
        }
        r
    }

    /// The wire label of the type: the one table that both directions of the
    /// mapping read.
    pub fn label(self) -> (r: &'static str)
        ensures
            r@ == meme_label(self),
    {
        match self {
            MemeType::Happiness => "happiness",
            MemeType::Love => "love",
            MemeType::Anger => "anger",
            MemeType::Sorrow => "sorrow",
            MemeType::Hate => "hate",
            MemeType::Surprise => "surprise",
        }
    }

    /// The meme type whose label is exactly `label`; `None` for any other text.
    pub fn from_label(label: &str) -> (r: Option<MemeType>)
        ensures
            r == meme_of_label(label@),
    {
        let wanted = label.to_owned();
        let all = MemeType::all();
        let mut i: usize = 0;
        while i < all.len()
            invariant
                all@ == all_meme_types(),
                i <= all@.len(),
                wanted@ == label@,
                forall|j: int| 0 <= j < i ==> meme_label(#[trigger] all@[j]) != label@,
            decreases all.len() - i,
        {
            let t = all[i];
            if t.label().to_owned() == wanted {
                proof {
                    lemma_meme_labels_injective();
                }
                return Some(t);
            }
            i = i + 1;
        }
        proof {
            assert forall|t: MemeType| meme_label(t) != label@ by {
                let j: int = match t {
                    MemeType::Happiness => 0,
                    MemeType::Love => 1,
                    MemeType::Anger => 2,
                    MemeType::Sorrow => 3,
                    MemeType::Hate => 4,
                    MemeType::Surprise => 5,
                };
                assert(all@[j] == t);
            }
        }
        None
    }
}

/// Different meme types have different labels, so a label names at most one type.
pub proof fn lemma_meme_labels_injective()
    ensures
        forall|a: MemeType, b: MemeType| #[trigger] meme_label(a) == #[trigger] meme_label(b) ==> a == b,
{
    reveal_strlit("happiness");
    reveal_strlit("love");
    reveal_strlit("anger");
    reveal_strlit("sorrow");
    reveal_strlit("hate");
    reveal_strlit("surprise");
    assert forall|a: MemeType, b: MemeType| #[trigger] meme_label(a) == #[trigger] meme_label(b) implies a == b by {
        if meme_label(a) == meme_label(b) && a != b {
            assert(meme_label(a).len() == meme_label(b).len());
            assert(meme_label(a)[0] == meme_label(b)[0]);
        }
    }
}

/// Reading back the label of any meme type gives that type.
pub proof fn lemma_meme_label_round_trip(t: MemeType)
    ensures
        meme_of_label(meme_label(t)) == Some(t),
{
    lemma_meme_labels_injective();
}

/// The textual description of a meme type, as reported to clients.
#[derive(Debug)]
pub struct MemeTypeDesc(pub String);

impl View for MemeTypeDesc {
    type V = Seq<char>;

    open spec fn view(&self) -> Seq<char> {
        self.0@
    }
}

impl MemeTypeDesc {
    /// The description of `meme_type`: its wire label.
    pub fn new(meme_type: MemeType) -> (r: MemeTypeDesc)
        ensures
            r@ == meme_label(meme_type),
    {
        MemeTypeDesc(meme_type.label().to_owned())
    }

    /// The description as a string slice.
    pub fn as_str(&self) -> (r: &str)
        ensures
            r@ == self@,
    {
        self.0.as_str()
    }
}

} // verus!

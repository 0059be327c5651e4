//! Stable labels that address the sub-objects of one converted file.

use vstd::prelude::*;
use vstd::string::StringExecFns;

verus! {

/// The label of a sub-object: its kind and its number within the file.
#[derive(Debug, Clone, Copy, PartialEq, Eq, Hash, Structural)]
pub enum FbxAssetLabel {
    Scene(usize),
    Node(usize),
    Mesh(usize),
    Material(usize),
    Texture(usize),
    Animation(usize),
    Skin(usize),
    DefaultMaterial,
}

/// The character of the decimal digit `d`.
pub open spec fn digit_char(d: int) -> char {
    if d == 0 {
        '0'
    } else if d == 1 {
        '1'
    } else if d == 2 {
        '2'
    } else if d == 3 {
        '3'
    } else if d == 4 {
        '4'
    } else if d == 5 {
        '5'
    } else if d == 6 {
        '6'
    } else if d == 7 {
        '7'
    } else if d == 8 {
        '8'
    } else {
        '9'
    }
}

/// Whether `c` is a decimal digit.
pub open spec fn is_digit(c: char) -> bool {
    '0' <= c <= '9'
}

/// The number that the digit character `c` stands for.
pub open spec fn digit_value(c: char) -> int {
    c as int - '0' as int
}

/// The decimal numeral of `n`, without leading zeros.
pub open spec fn decimal(n: nat) -> Seq<char>
    decreases n,
{
    if n < 10 {
        seq![digit_char(n as int)]
    } else {
        decimal(n / 10).push(digit_char((n % 10) as int))
    }
}

/// The number that a decimal numeral denotes.
pub open spec fn numeral_value(s: Seq<char>) -> int
    decreases s.len(),
{
    if s.len() == 0 {
        0
    } else {
        numeral_value(s.drop_last()) * 10 + digit_value(s.last())
    }
}

/// A decimal numeral is never empty and holds digits only.
pub proof fn lemma_decimal_digits(n: nat)
    ensures
        decimal(n).len() >= 1,
        forall|i: int| 0 <= i < decimal(n).len() ==> is_digit(#[trigger] decimal(n)[i]),
    decreases n,
{
    if n >= 10 {
        lemma_decimal_digits(n / 10);
    }
}

/// Reading a decimal numeral gives back the number it was written for.
pub proof fn lemma_decimal_value(n: nat)
    ensures
        numeral_value(decimal(n)) == n,
    decreases n,
{
    if n < 10 {
        assert(numeral_value(decimal(n).drop_last()) == 0);
    } else {
        lemma_decimal_value(n / 10);
        assert(decimal(n).drop_last() =~= decimal(n / 10));
    }
}

/// The one-character text of a decimal digit.
fn digit_text(d: usize) -> (text: &'static str)
    requires
        d < 10,
    ensures
        text@ == seq![digit_char(d as int)],
{
    proof {
        reveal_strlit("0");
        reveal_strlit("1");
        reveal_strlit("2");
        reveal_strlit("3");
        reveal_strlit("4");
        reveal_strlit("5");
        reveal_strlit("6");
        reveal_strlit("7");
        reveal_strlit("8");
        reveal_strlit("9");
    }
    let text = match d {
        0 => "0",
        1 => "1",
        2 => "2",
        3 => "3",
        4 => "4",
        5 => "5",
        6 => "6",
        7 => "7",
        8 => "8",
        _ => "9",
    };
    text
}

/// Appends the decimal numeral of `n` to `text`.
pub fn append_decimal(text: &mut String, n: usize)
    ensures
        final(text)@ == old(text)@ + decimal(n as nat),
    decreases n,
{
    if n >= 10 {
        append_decimal(text, n / 10);
    }
    text.append(digit_text(n % 10));
}

impl FbxAssetLabel {
    /// The word that names the kind of the labelled object.
    pub open spec fn kind_text(self) -> Seq<char> {
        match self {
            FbxAssetLabel::Scene(_) => "Scene"@,
            FbxAssetLabel::Node(_) => "Node"@,
            FbxAssetLabel::Mesh(_) => "Mesh"@,
            FbxAssetLabel::Material(_) => "Material"@,
            FbxAssetLabel::Texture(_) => "Texture"@,
            FbxAssetLabel::Animation(_) => "Animation"@,
            FbxAssetLabel::Skin(_) => "Skin"@,
            FbxAssetLabel::DefaultMaterial => "DefaultMaterial"@,
        }
    }

    /// The number of the labelled object, where its kind is numbered.
    pub open spec fn number(self) -> Option<usize> {
        match self {
            FbxAssetLabel::Scene(n) => Some(n),
            FbxAssetLabel::Node(n) => Some(n),
            FbxAssetLabel::Mesh(n) => Some(n),
            FbxAssetLabel::Material(n) => Some(n),
            FbxAssetLabel::Texture(n) => Some(n),
            FbxAssetLabel::Animation(n) => Some(n),
            FbxAssetLabel::Skin(n) => Some(n),
            FbxAssetLabel::DefaultMaterial => None,
        }
    }

    /// The text of the label: the kind, directly followed by the number in
    /// decimal where there is one.
    pub open spec fn text(self) -> Seq<char> {
        match self.number() {
            Some(n) => self.kind_text() + decimal(n as nat),
            None => self.kind_text(),
        }
    }

    /// Writes the label out.
    pub fn to_string(&self) -> (text: String)
        ensures
            text@ == self.text(),
    {
        match self {
            FbxAssetLabel::Scene(n) => numbered("Scene", *n),
            FbxAssetLabel::Node(n) => numbered("Node", *n),
            FbxAssetLabel::Mesh(n) => numbered("Mesh", *n),
            FbxAssetLabel::Material(n) => numbered("Material", *n),
            FbxAssetLabel::Texture(n) => numbered("Texture", *n),
            FbxAssetLabel::Animation(n) => numbered("Animation", *n),
            FbxAssetLabel::Skin(n) => numbered("Skin", *n),
            FbxAssetLabel::DefaultMaterial => String::from_str("DefaultMaterial"),
        }
    }
}

/// The text of `word` directly followed by the decimal numeral of `n`.
pub fn numbered(word: &str, n: usize) -> (text: String)
    ensures
        text@ == word@ + decimal(n as nat),
{
    let mut text = String::from_str(word);
    append_decimal(&mut text, n);
    text
}

/// Whether no character of `s` is a decimal digit.
pub open spec fn has_no_digit(s: Seq<char>) -> bool {
    forall|i: int| 0 <= i < s.len() ==> !is_digit(#[trigger] s[i])
}

/// A word without digits followed by a numeral can be split in one way only.
proof fn lemma_split_unique(word: Seq<char>, n: nat, other_word: Seq<char>, m: nat)
    requires
        has_no_digit(word),
        has_no_digit(other_word),
        word + decimal(n) == other_word + decimal(m),
    ensures
        word == other_word,
        n == m,
{
    let s = word + decimal(n);
    lemma_decimal_digits(n);
    lemma_decimal_digits(m);
    if word.len() < other_word.len() {
        assert(s[word.len() as int] == decimal(n)[0]);
    }
    if other_word.len() < word.len() {
        let t = other_word + decimal(m);
        assert(t[other_word.len() as int] == decimal(m)[0]);
    }
    assert(word =~= s.subrange(0, word.len() as int));
    assert(decimal(n) =~= s.subrange(word.len() as int, s.len() as int));
    assert(decimal(m) =~= s.subrange(other_word.len() as int, s.len() as int));
    lemma_decimal_value(n);
    lemma_decimal_value(m);
}

/// The kind words hold no digit, and no two of them are the same word.
proof fn lemma_kind_words(a: FbxAssetLabel, b: FbxAssetLabel)
    ensures
        has_no_digit(a.kind_text()),
        a.kind_text() == b.kind_text() ==> (a.number() is Some <==> b.number() is Some),
        a.kind_text() == b.kind_text() && a.number() is None ==> a == b,
        a.kind_text() == b.kind_text() && a.number() == b.number() ==> a == b,
{
    reveal_strlit("Scene");
    reveal_strlit("Node");
    reveal_strlit("Mesh");
    reveal_strlit("Material");
    reveal_strlit("Texture");
    reveal_strlit("Animation");
    reveal_strlit("Skin");
    reveal_strlit("DefaultMaterial");
    let ka = a.kind_text();
    let kb = b.kind_text();
    if ka == kb {
        assert(ka.len() == kb.len());
        assert(ka[0] == kb[0]);
    }
}

/// Labels are unique: two labels with the same text are the same label. That
/// the same label always has the same text needs no proof, `text` being a
/// function of the label.
pub proof fn lemma_label_text_injective(a: FbxAssetLabel, b: FbxAssetLabel)
    requires
        a.text() == b.text(),
    ensures
        a == b,
{
    lemma_kind_words(a, b);
    lemma_kind_words(b, a);
    match (a.number(), b.number()) {
        (Some(n1), Some(n2)) => {
            lemma_split_unique(a.kind_text(), n1 as nat, b.kind_text(), n2 as nat);
        },
        (Some(n1), None) => {
            let s = a.text();
            assert(s.last() == decimal(n1 as nat).last());
        },
        (None, Some(n2)) => {
            let s = b.text();
            assert(s.last() == decimal(n2 as nat).last());
        },
        (None, None) => {},
    }
}

} // verus!

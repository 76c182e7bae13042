//! Wake words: the phrases that wake the assistant, generated from its
//! name.
//!
//! Base phrases are "hey NAME", "hey NAME!", "NAME", "ok NAME", "okay NAME"
//! and "yo NAME"; names of three bytes or more also get "hi NAME" and
//! "hello NAME"; the one-letter names "g" and "j" get the mishearings a
//! speech recognizer is known to produce for them.
use crate::text::{contains_seq, lowercase, str_contains, str_eq, to_lowercase, trim, trim_spec};
use vstd::prelude::*;
use vstd::string::*;
use vstd::utf8::encode_utf8;

verus! {

/// The wake phrases for a (lowercase) name.
pub open spec fn wake_words_for(name: Seq<char>) -> Seq<Seq<char>> {
    let base = seq![
        "hey "@ + name,
        "hey "@ + name + "!"@,
        name,
        "ok "@ + name,
        "okay "@ + name,
        "yo "@ + name,
    ];
    let greetings = if encode_utf8(name).len() >= 3 {
        seq!["hi "@ + name, "hello "@ + name]
    } else {
        Seq::empty()
    };
    let mishearings = if encode_utf8(name).len() <= 2 {
        if name == "g"@ {
            seq!["gee"@, "ji"@, "jee"@, "gee gee"@, "hey gee"@, "hey ji"@]
        } else if name == "j"@ {
            seq!["jay"@, "hey jay"@]
        } else {
            Seq::empty()
        }
    } else {
        Seq::empty()
    };
    base + greetings + mishearings
}

/// Views of a list of strings.
pub open spec fn string_views(v: Seq<String>) -> Seq<Seq<char>> {
    v.map_values(|s: String| s@)
}

/// A transcript as wake-word matching reads it: lowercase, trimmed.
pub open spec fn normalized(text: Seq<char>) -> Seq<char> {
    trim_spec(lowercase(text))
}

/// The wake phrases of an assistant.
pub struct WakeWordDetector {
    /// Wake phrases (lowercase).
    wake_words: Vec<String>,
    /// The assistant's name, as given.
    ai_name: String,
}

fn push_word(words: &mut Vec<String>, w: String)
    ensures
        string_views(final(words)@) == string_views(old(words)@).push(w@),
{
    words.push(w);
    assert(string_views(words@) =~= string_views(old(words)@).push(w@));
}

fn phrase(prefix: &str, name: &str) -> (r: String)
    ensures
        r@ == prefix@ + name@,
{
    let mut s = String::from_str(prefix);
    s.append(name);
    s
}

impl WakeWordDetector {
    /// The wake phrases.
    pub closed spec fn words(&self) -> Seq<Seq<char>> {
        string_views(self.wake_words@)
    }

    /// The assistant's name.
    pub closed spec fn name(&self) -> Seq<char> {
        self.ai_name@
    }

    /// The detector for an assistant called `ai_name`: the wake phrases of
    /// its lowercase name.
    pub fn new(ai_name: &str) -> (r: Self)
        ensures
            r.words() == wake_words_for(lowercase(ai_name@)),
            r.name() == ai_name@,
    {
        let lower = to_lowercase(ai_name);
        Self::with_lowercase_name(ai_name, lower.as_str())
    }

    /// The detector for an assistant called `ai_name` whose lowercase name
    /// is `name`: the wake phrases of `name`.
    pub fn with_lowercase_name(ai_name: &str, name: &str) -> (r: Self)
        ensures
            r.words() == wake_words_for(name@),
            r.name() == ai_name@,
    {
        let mut words: Vec<String> = Vec::new();
        push_word(&mut words, phrase("hey ", name));
        let mut bang = phrase("hey ", name);
        bang.append("!");
        push_word(&mut words, bang);
        push_word(&mut words, String::from_str(name));
        push_word(&mut words, phrase("ok ", name));
        push_word(&mut words, phrase("okay ", name));
        push_word(&mut words, phrase("yo ", name));
        let ghost base = string_views(words@);
        let nbytes = name.as_bytes().len();
        if nbytes >= 3 {
            push_word(&mut words, phrase("hi ", name));
            push_word(&mut words, phrase("hello ", name));
        }
        let ghost with_greetings = string_views(words@);
        if nbytes <= 2 {
            if str_eq(name, "g") {
                push_word(&mut words, String::from_str("gee"));
                push_word(&mut words, String::from_str("ji"));
                push_word(&mut words, String::from_str("jee"));
                push_word(&mut words, String::from_str("gee gee"));
                push_word(&mut words, String::from_str("hey gee"));
                push_word(&mut words, String::from_str("hey ji"));
            } else if str_eq(name, "j") {
                push_word(&mut words, String::from_str("jay"));
                push_word(&mut words, String::from_str("hey jay"));
            }
        }
        proof {
            let n = name@;
            assert(base =~= seq![
                "hey "@ + n,
                "hey "@ + n + "!"@,
                n,
                "ok "@ + n,
                "okay "@ + n,
                "yo "@ + n,
            ]);
            assert(string_views(words@) =~= wake_words_for(n));
        }
        WakeWordDetector { wake_words: words, ai_name: String::from_str(ai_name) }
    }

    /// Adds a wake phrase (lowercased).
    pub fn add_variant(&mut self, word: &str)
        ensures
            final(self).words() == old(self).words().push(lowercase(word@)),
            final(self).name() == old(self).name(),
    {
        let w = to_lowercase(word);
        push_word(&mut self.wake_words, w);
    }

    /// The wake phrases, in order.
    pub fn wake_words(&self) -> (r: &Vec<String>)
        ensures
            string_views(r@) == self.words(),
    {
        &self.wake_words
    }

    /// The assistant's name, as given.
    pub fn ai_name(&self) -> (r: &str)
        ensures
            r@ == self.name(),
    {
        self.ai_name.as_str()
    }

    /// Some wake phrase occurs, as it is, in the (normalized) transcript.
    pub fn contains_wake_word(&self, normalized_text: &str) -> (r: bool)
        ensures
            r == exists|i: int|
                0 <= i < self.words().len() && contains_seq(normalized_text@, #[trigger] self.words()[i]),
    {
        let n = self.wake_words.len();
        let mut i: usize = 0;
        while i < n
            invariant
                n == self.wake_words@.len(),
                i <= n,
                forall|k: int| 0 <= k < i ==> !contains_seq(normalized_text@, #[trigger] self.words()[k]),
            decreases n - i,
        {
            if str_contains(normalized_text, self.wake_words[i].as_str()) {
                assert(self.words()[i as int] == self.wake_words@[i as int]@);
                return true;
            }
            assert(self.words()[i as int] == self.wake_words@[i as int]@);
            i = i + 1;
        }
        false
    }

    /// A transcript as matching reads it: lowercased, then trimmed.
    pub fn normalize(text: &str) -> (r: String)
        ensures
            r@ == normalized(text@),
    {
        let lower = to_lowercase(text);
        String::from_str(trim(lower.as_str()))
    }
}

} // verus!

//! Consumers of the event stream that answer in the room: the gift thanker,
//! which renders a reply template for each gift.

use crate::events::{BiliMessage, GiftMessage, GiftView, GuardType};
use crate::json::{str_eq, to_document, JsonNumber, JsonValue};
use crate::text::{decimal, lemma_decimal_injective, u64_to_decimal};
use vstd::prelude::*;

verus! {

/// A consumer of events that may answer with a line of chat.
pub trait DanmujiPlugin {
    fn process_mesage(&mut self, msg: &BiliMessage) -> Option<String>;
}

/// The gift thanker's settings: the reply template, and whether it answers.
#[derive(Debug, Clone)]
pub struct GiftThankConfig {
    pub template: String,
    pub open: bool,
}

impl Default for GiftThankConfig {
    fn default() -> (r: Self)
        ensures
            r.template@ == "感谢{uname}投喂的{gift_num}个{gift_name}~"@,
            r.open,
    {
        GiftThankConfig { template: "感谢{uname}投喂的{gift_num}个{gift_name}~".to_string(), open: true }
    }
}

/// What tinytemplate renders `template` to with `context`; `None` when the
/// template does not compile or does not render.
pub uninterp spec fn rendered_of(template: Seq<char>, context: JsonValue) -> Option<Seq<char>>;

/// A character that tinytemplate may trim from a block, or a `-` it strips:
/// every ASCII control character and space, and `-`.
pub open spec fn is_trim_or_dash(c: char) -> bool {
    (c as u32) <= 32 || c == '-'
}

/// What follows a `not` from position `j` on is more than a closing of its
/// block: past spaces and dashes comes an ASCII character other than `}`.
pub open spec fn continues_after_not(t: Seq<char>, j: int) -> bool
    decreases t.len() - j,
{
    if j < 0 || j >= t.len() {
        false
    } else if is_trim_or_dash(t[j]) {
        continues_after_not(t, j + 1)
    } else {
        t[j] != '}' && (t[j] as u32) < 128
    }
}

/// `t` holds `not` at position `i`.
pub open spec fn is_not_at(t: Seq<char>, i: int) -> bool {
    0 <= i && i + 3 <= t.len() && t[i] == 'n' && t[i + 1] == 'o' && t[i + 2] == 't'
}

/// `t` holds the three-character comment tag `{#}` at position `i`.
pub open spec fn is_empty_comment_at(t: Seq<char>, i: int) -> bool {
    0 <= i && i + 3 <= t.len() && t[i] == '{' && t[i + 1] == '#' && t[i + 2] == '}'
}

/// Template text that tinytemplate's compiler handles without panicking: it
/// does not end in `\`, holds no `{#}`, and every `not` is followed (past
/// spaces and dashes) by an ASCII character other than `}`. Rejecting more
/// than needed is safe: such a template only gives no reply.
pub open spec fn is_safe_template(t: Seq<char>) -> bool {
    &&& !(t.len() > 0 && t.last() == '\\')
    &&& forall|i: int| !#[trigger] is_empty_comment_at(t, i)
    &&& forall|i: int| #[trigger] is_not_at(t, i) ==> continues_after_not(t, i + 3)
}

fn check_after_not(t: &str, n: usize, j: usize) -> (r: bool)
    requires
        n == t@.len(),
    ensures
        r == continues_after_not(t@, j as int),
{
    let mut k: usize = j;
    while k < n
        invariant
            n == t@.len(),
            j <= k,
            continues_after_not(t@, j as int) == continues_after_not(t@, k as int),
        decreases n - k,
    {
        let c = t.get_char(k);
        if !((c as u32) <= 32 || c == '-') {
            return c != '}' && (c as u32) < 128;
        }
        k += 1;
    }
    false
}

/// Whether tinytemplate can be handed the template without panicking.
pub fn template_is_safe(t: &str) -> (r: bool)
    ensures
        r == is_safe_template(t@),
{
    let n = t.unicode_len();
    if n > 0 && t.get_char(n - 1) == '\\' {
        return false;
    }
    let mut i: usize = 0;
    while i < n
        invariant
            n == t@.len(),
            !(n > 0 && t@.last() == '\\'),
            forall|k: int| 0 <= k < i ==> !#[trigger] is_empty_comment_at(t@, k),
            forall|k: int| 0 <= k < i && #[trigger] is_not_at(t@, k) ==> continues_after_not(t@, k + 3),
        decreases n - i,
    {
        if n - i >= 3 {
            let a = t.get_char(i);
            let b = t.get_char(i + 1);
            let c = t.get_char(i + 2);
            if a == '{' && b == '#' && c == '}' {
                assert(is_empty_comment_at(t@, i as int));
                return false;
            }
            if a == 'n' && b == 'o' && c == 't' {
                if !check_after_not(t, n, i + 3) {
                    assert(is_not_at(t@, i as int));
                    return false;
                }
            }
        }
        i += 1;
    }
    assert forall|k: int| !#[trigger] is_empty_comment_at(t@, k) by {
        if 0 <= k < n {
        }
    }
    assert forall|k: int| #[trigger] is_not_at(t@, k) implies continues_after_not(t@, k + 3) by {
        if 0 <= k < n {
        }
    }
    true
}

/// Relies on tinytemplate::TinyTemplate::add_template and render: compiles
/// the template and renders it against the document; the result depends on
/// the two alone. A template whose text is safe (see `is_safe_template`)
/// never reaches one of the compiler's panicking slices.
#[verifier::external_body]
fn render_template(template: &str, context: &JsonValue) -> (r: Option<String>)
    requires
        is_safe_template(template@),
    ensures
        r matches Some(s) ==> rendered_of(template@, *context) == Some(s@),
        r is None ==> rendered_of(template@, *context) is None,
{
    let mut tt = tinytemplate::TinyTemplate::new();
    if tt.add_template("reply", template).is_err() {
        return None;
    }
    tt.render("reply", &to_document(context)).ok()
}

/// The name of a guard tier, as a template sees it.
pub open spec fn guard_name(g: GuardType) -> Seq<char> {
    match g {
        GuardType::NoGuard => "NoGuard"@,
        GuardType::Captain => "Captain"@,
        GuardType::Admiral => "Admiral"@,
        GuardType::Governor => "Governor"@,
    }
}

fn guard_str(g: GuardType) -> (r: &'static str)
    ensures
        r@ == guard_name(g),
{
    match g {
        GuardType::NoGuard => "NoGuard",
        GuardType::Captain => "Captain",
        GuardType::Admiral => "Admiral",
        GuardType::Governor => "Governor",
    }
}

/// A member holding a non-negative integer.
pub open spec fn is_uint_member(m: (String, JsonValue), key: Seq<char>, n: u64) -> bool {
    m.0@ == key && m.1 == JsonValue::Number(JsonNumber::PosInt(n))
}

/// A member holding a string.
pub open spec fn is_text_member(m: (String, JsonValue), key: Seq<char>, s: Seq<char>) -> bool {
    m.0@ == key && (m.1 matches JsonValue::Str(x) && x@ == s)
}

/// The document a reply template reads a gift from: its six fields by name.
pub open spec fn is_gift_document(d: JsonValue, g: GiftView) -> bool {
    &&& d matches JsonValue::Object(m)
    &&& m@.len() == 6
    &&& is_uint_member(m@[0], "uid"@, g.uid)
    &&& is_text_member(m@[1], "uname"@, g.uname)
    &&& is_text_member(m@[2], "guard"@, guard_name(g.guard))
    &&& is_uint_member(m@[3], "gift_id"@, g.gift_id)
    &&& is_text_member(m@[4], "gift_name"@, g.gift_name)
    &&& is_uint_member(m@[5], "gift_num"@, g.gift_num)
}

fn uint_member(key: &str, n: u64) -> (r: (String, JsonValue))
    ensures
        is_uint_member(r, key@, n),
{
    (key.to_string(), JsonValue::Number(JsonNumber::PosInt(n)))
}

fn text_member(key: &str, s: &str) -> (r: (String, JsonValue))
    ensures
        is_text_member(r, key@, s@),
{
    (key.to_string(), JsonValue::Str(s.to_string()))
}

/// The document a reply template reads a gift from.
pub fn gift_document(g: &GiftMessage) -> (r: JsonValue)
    ensures
        is_gift_document(r, g@),
{
    let mut m: Vec<(String, JsonValue)> = Vec::new();
    m.push(uint_member("uid", g.uid));
    m.push(text_member("uname", g.uname.as_str()));
    m.push(text_member("guard", guard_str(g.guard)));
    m.push(uint_member("gift_id", g.gift_id));
    m.push(text_member("gift_name", g.gift_name.as_str()));
    m.push(uint_member("gift_num", g.gift_num));
    JsonValue::Object(m)
}

impl GiftThankConfig {
    /// The reply to a gift: the template rendered with the gift's fields.
    /// No reply when the thanker is closed, for any other event, when the
    /// template is not safe to compile, or when it does not render.
    pub fn get_thank_message(&self, msg: &BiliMessage) -> (r: Option<String>)
        ensures
            !self.open ==> r is None,
            !(msg is Gift) ==> r is None,
            !is_safe_template(self.template@) ==> r is None,
            self.open && msg is Gift && is_safe_template(self.template@) ==> exists|d: JsonValue|
                is_gift_document(d, msg->Gift_0@) && match r {
                    Some(s) => rendered_of(self.template@, d) == Some(s@),
                    None => rendered_of(self.template@, d) is None,
                },
    {
        if !self.open {
            return None;
        }
        match msg {
            BiliMessage::Gift(g) => {
                if !template_is_safe(self.template.as_str()) {
                    return None;
                }
                let d = gift_document(g);
                render_template(self.template.as_str(), &d)
            },
            _ => None,
        }
    }
}


/// Where the chatbot's conversation log is written.
pub struct ChatbotMessagePersister<W> {
    pub writer: W,
}

impl<W> ChatbotMessagePersister<W> {
    pub fn new(writer: W) -> (r: Self)
        ensures
            r.writer == writer,
    {
        ChatbotMessagePersister { writer }
    }
}

/// Hands each user name a stable pseudonym: `User0`, `User1`, ... in order
/// of first appearance.
#[derive(Debug)]
pub struct UserIdGenerator {
    next_available: u32,
    ids: Vec<(String, String)>,
}

/// The pseudonym of the `n`-th new name.
pub open spec fn pseudonym(n: nat) -> Seq<char> {
    "User"@ + decimal(n)
}

impl Default for UserIdGenerator {
    fn default() -> (r: Self)
        ensures
            r.wf(),
            r.names().len() == 0,
    {
        UserIdGenerator { next_available: 0, ids: Vec::new() }
    }
}

impl UserIdGenerator {
    /// The names seen so far, in order of first appearance.
    pub closed spec fn names(&self) -> Seq<Seq<char>> {
        self.ids@.map_values(|p: (String, String)| p.0@)
    }

    /// The pseudonyms handed out, one per name.
    pub closed spec fn pseudonyms(&self) -> Seq<Seq<char>> {
        self.ids@.map_values(|p: (String, String)| p.1@)
    }

    /// Each name appears once, the `i`-th one is `User<i>`, and the counter
    /// is the number of names.
    pub closed spec fn wf(&self) -> bool {
        &&& self.next_available as int == self.ids@.len()
        &&& forall|i: int| 0 <= i < self.ids@.len() ==> #[trigger] self.ids@[i].1@ == pseudonym(i as nat)
        &&& forall|i: int, j: int|
            0 <= i < j < self.ids@.len() ==> #[trigger] self.ids@[i].0@ != #[trigger] self.ids@[j].0@
    }

    /// The `i`-th name has the `i`-th pseudonym.
    pub proof fn lemma_pseudonym_of(&self, i: int)
        requires
            self.wf(),
            0 <= i < self.names().len(),
        ensures
            self.pseudonyms().len() == self.names().len(),
            self.pseudonyms()[i] == pseudonym(i as nat),
    {
        assert(self.ids@[i].1@ == pseudonym(i as nat));
    }

    /// Distinct names have distinct pseudonyms.
    pub proof fn lemma_distinct_ids(&self, i: int, j: int)
        requires
            self.wf(),
            0 <= i < self.names().len(),
            0 <= j < self.names().len(),
            i != j,
        ensures
            self.names()[i] != self.names()[j],
            self.pseudonyms()[i] != self.pseudonyms()[j],
    {
        if i < j {
            assert(self.ids@[i].0@ != self.ids@[j].0@);
        } else {
            assert(self.ids@[j].0@ != self.ids@[i].0@);
        }
        self.lemma_pseudonym_of(i);
        self.lemma_pseudonym_of(j);
        if pseudonym(i as nat) == pseudonym(j as nat) {
            reveal_strlit("User");
            assert(pseudonym(i as nat).subrange(4, pseudonym(i as nat).len() as int) =~= decimal(i as nat));
            assert(pseudonym(j as nat).subrange(4, pseudonym(j as nat).len() as int) =~= decimal(j as nat));
            lemma_decimal_injective(i as nat, j as nat);
        }
    }

    /// The pseudonym of `user_name`: the one it was given when first seen,
    /// or the next free one, recorded for it now.
    pub fn generate(&mut self, user_name: &str) -> (r: String)
        requires
            old(self).wf(),
            old(self).names().len() < u32::MAX,
        ensures
            final(self).wf(),
            old(self).names().contains(user_name@) ==> {
                &&& final(self).names() == old(self).names()
                &&& exists|i: int|
                    0 <= i < old(self).names().len() && old(self).names()[i] == user_name@ && r@
                        == pseudonym(i as nat)
            },
            !old(self).names().contains(user_name@) ==> {
                &&& final(self).names() == old(self).names().push(user_name@)
                &&& r@ == pseudonym(old(self).names().len())
            },
    {
        let ghost names0 = self.names();
        let mut i: usize = 0;
        while i < self.ids.len()
            invariant
                self.wf(),
                names0 == self.names(),
                i <= self.ids@.len(),
                forall|j: int| 0 <= j < i ==> self.ids@[j].0@ != user_name@,
            decreases self.ids@.len() - i,
        {
            if str_eq(self.ids[i].0.as_str(), user_name) {
                assert(names0[i as int] == user_name@);
                assert(self.ids@[i as int].1@ == pseudonym(i as nat));
                return self.ids[i].1.clone();
            }
            i += 1;
        }
        assert(!names0.contains(user_name@)) by {
            if names0.contains(user_name@) {
                let k = choose|k: int| 0 <= k < names0.len() && names0[k] == user_name@;
                assert(self.ids@[k].0@ == user_name@);
            }
        }
        let mut id = String::from_str("User");
        proof {
            reveal_strlit("User");
        }
        let digits = u64_to_decimal(self.next_available as u64);
        id.append(digits.as_str());
        assert(id@ =~= pseudonym(self.next_available as nat));
        let ghost before = self.ids@;
        self.ids.push((user_name.to_string(), id.clone()));
        self.next_available = self.next_available + 1;
        assert(self.names() =~= names0.push(user_name@));
        assert forall|a: int, b: int| 0 <= a < b < self.ids@.len() implies #[trigger] self.ids@[a].0@
            != #[trigger] self.ids@[b].0@ by {
            if b == self.ids@.len() - 1 {
                assert(self.ids@[a] == before[a]);
            } else {
                assert(self.ids@[a] == before[a]);
                assert(self.ids@[b] == before[b]);
            }
        }
        assert forall|a: int| 0 <= a < self.ids@.len() implies #[trigger] self.ids@[a].1@ == pseudonym(
            a as nat,
        ) by {
            if a < before.len() {
                assert(self.ids@[a] == before[a]);
            }
        }
        id
    }
}

} // verus!

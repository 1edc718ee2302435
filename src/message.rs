use vstd::prelude::*;

use crate::text::{holds_text, lower_of, lowercase, seq_holds};

verus! {

broadcast use vstd::string::group_string_axioms;

/// A message as the mail list or the reading pane shows it.
#[derive(Debug, Clone)]
pub struct Message {
    pub id: String,
    pub subject: Option<String>,
    pub from: Option<String>,
    pub body: Option<String>,
    pub preview: Option<String>,
    pub labels: Vec<String>,
    pub is_unread: bool,
}

/// A handle on the browser that holds the webmail tab.
pub struct Client {
    port: u16,
}

impl Client {
    /// The debugging port the handle speaks to.
    pub closed spec fn spec_port(&self) -> u16 {
        self.port
    }

    /// A handle on the browser listening on `port`.
    pub fn new(port: u16) -> (r: Client)
        ensures
            r.spec_port() == port,
    {
        Client { port }
    }

    /// The debugging port the handle speaks to.
    pub fn port(&self) -> (r: u16)
        ensures
            r == self.spec_port(),
    {
        self.port
    }
}

/// The first `max` messages, or all of them where there are fewer.
pub fn take_messages(messages: Vec<Message>, max: u32) -> (r: Vec<Message>)
    ensures
        messages@.len() <= max ==> r@ == messages@,
        messages@.len() > max ==> r@ == messages@.subrange(0, max as int),
{
    let mut r = messages;
    r.truncate(max as usize);
    r
}

/// The strings of `items` with `sep` between each two.
pub open spec fn join_seq(items: Seq<Seq<char>>, sep: Seq<char>) -> Seq<char>
    decreases items.len(),
{
    if items.len() == 0 {
        Seq::empty()
    } else if items.len() == 1 {
        items[0]
    } else {
        join_seq(items.drop_last(), sep) + sep + items.last()
    }
}

/// The strings of `items` with `sep` between each two.
pub fn join(items: &Vec<String>, sep: &str) -> (r: String)
    ensures
        r@ == join_seq(items.deep_view(), sep@),
{
    let mut r = String::new();
    let mut i: usize = 0;
    while i < items.len()
        invariant
            i <= items@.len(),
            r@ == join_seq(items.deep_view().take(i as int), sep@),
        decreases items@.len() - i,
    {
        let ghost before = items.deep_view().take(i as int);
        if i > 0 {
            r.append(sep);
        }
        r.append(items[i].as_str());
        proof {
            let after = items.deep_view().take(i + 1);
            assert(after.drop_last() =~= before);
            assert(after.last() == items@[i as int]@);
            if i == 0 {
                assert(r@ =~= after[0]);
            }
        }
        i = i + 1;
    }
    assert(items.deep_view().take(items@.len() as int) =~= items.deep_view());
    r
}

/// The text of an optional field, or `fallback` where it is absent.
pub open spec fn text_or(field: Option<String>, fallback: Seq<char>) -> Seq<char> {
    match field {
        Some(s) => s@,
        None => fallback,
    }
}

fn field_or(field: &Option<String>, fallback: &str) -> (r: String)
    ensures
        r@ == text_or(*field, fallback@),
{
    match field {
        Some(s) => s.clone(),
        None => fallback.to_owned(),
    }
}

impl Message {
    /// The sender as shown, "Unknown" where none was read.
    pub open spec fn shown_from(self) -> Seq<char> {
        text_or(self.from, "Unknown"@)
    }

    /// The subject as shown, "(no subject)" where none was read.
    pub open spec fn shown_subject(self) -> Seq<char> {
        text_or(self.subject, "(no subject)"@)
    }

    /// The labels as shown after a line: nothing where there are none, else
    /// a space and the labels in brackets.
    pub open spec fn shown_labels(self) -> Seq<char> {
        if self.labels@.len() == 0 {
            Seq::empty()
        } else {
            " ["@ + join_seq(self.labels.deep_view(), ", "@) + "]"@
        }
    }

    /// The line of the inbox listing: a star on unread messages, then id,
    /// sender, subject and labels.
    pub fn summary_line(&self) -> (r: String)
        ensures
            r@ == (if self.is_unread {
                "*"@
            } else {
                " "@
            }) + self.id@ + " | "@ + self.shown_from() + " | "@ + self.shown_subject()
                + self.shown_labels(),
    {
        let mut r = if self.is_unread {
            "*".to_owned()
        } else {
            " ".to_owned()
        };
        r.append(self.id.as_str());
        r.append(" | ");
        r.append(field_or(&self.from, "Unknown").as_str());
        r.append(" | ");
        r.append(field_or(&self.subject, "(no subject)").as_str());
        if self.labels.len() > 0 {
            r.append(" [");
            r.append(join(&self.labels, ", ").as_str());
            r.append("]");
        } else {
            assert(r@ =~= r@ + Seq::<char>::empty());
        }
        r
    }

    /// The line of the junk listing: id, sender and subject.
    pub fn spam_line(&self) -> (r: String)
        ensures
            r@ == self.id@ + " | "@ + self.shown_from() + " | "@ + self.shown_subject(),
    {
        let mut r = self.id.clone();
        r.append(" | ");
        r.append(field_or(&self.from, "Unknown").as_str());
        r.append(" | ");
        r.append(field_or(&self.subject, "(no subject)").as_str());
        r
    }

    /// The lines that show a message read in full: sender, subject, labels
    /// where it has any, a rule, and the body.
    pub fn detail_lines(&self) -> (r: Vec<String>)
        ensures
            r@.len() == if self.labels@.len() == 0 {
                4int
            } else {
                5int
            },
            r@[0]@ == "From: "@ + self.shown_from(),
            r@[1]@ == "Subject: "@ + self.shown_subject(),
            self.labels@.len() > 0 ==> r@[2]@ == "Labels: "@ + join_seq(
                self.labels.deep_view(),
                ", "@,
            ),
            r@[r@.len() - 2]@ == "---"@,
            r@[r@.len() - 1]@ == text_or(self.body, Seq::empty()),
    {
        let mut r: Vec<String> = Vec::new();
        let mut from = "From: ".to_owned();
        from.append(field_or(&self.from, "Unknown").as_str());
        r.push(from);
        let mut subject = "Subject: ".to_owned();
        subject.append(field_or(&self.subject, "(no subject)").as_str());
        r.push(subject);
        if self.labels.len() > 0 {
            let mut labels = "Labels: ".to_owned();
            labels.append(join(&self.labels, ", ").as_str());
            r.push(labels);
        }
        r.push("---".to_owned());
        proof {
            reveal_strlit("");
        }
        r.push(field_or(&self.body, ""));
        r
    }
}

/// No known category matches `label`, letter case aside.
pub open spec fn is_unknown(known: Seq<String>, label: Seq<char>) -> bool {
    forall|k: int| 0 <= k < known.len() ==> lower_of(#[trigger] known[k]@) != lower_of(label)
}

/// Some message carries `label`.
pub open spec fn carries_label(messages: Seq<Message>, label: Seq<char>) -> bool {
    exists|m: int, j: int|
        0 <= m < messages.len() && 0 <= j < messages[m].labels@.len()
            && #[trigger] messages[m].labels@[j]@ == label
}

/// The labels found on `messages` that none of the `known` categories
/// matches, letter case aside: each once, in the order first met.
pub fn unknown_labels(known: &Vec<String>, messages: &Vec<Message>) -> (r: Vec<String>)
    ensures
        forall|i: int|
            0 <= i < r@.len() ==> carries_label(messages@, #[trigger] r@[i]@) && is_unknown(
                known@,
                r@[i]@,
            ),
        forall|m: int, j: int|
            0 <= m < messages@.len() && 0 <= j < messages@[m].labels@.len() && is_unknown(
                known@,
                #[trigger] messages@[m].labels@[j]@,
            ) ==> seq_holds(r@, messages@[m].labels@[j]@),
        forall|i: int, k: int| 0 <= i < k < r@.len() ==> r@[i]@ != r@[k]@,
{
    let mut lows: Vec<String> = Vec::new();
    let mut k: usize = 0;
    while k < known.len()
        invariant
            k <= known@.len(),
            lows@.len() == k,
            forall|q: int| 0 <= q < k ==> #[trigger] lows@[q]@ == lower_of(known@[q]@),
        decreases known@.len() - k,
    {
        lows.push(lowercase(known[k].as_str()));
        k = k + 1;
    }
    let mut r: Vec<String> = Vec::new();
    let mut m: usize = 0;
    while m < messages.len()
        invariant
            m <= messages@.len(),
            lows@.len() == known@.len(),
            forall|q: int| 0 <= q < lows@.len() ==> #[trigger] lows@[q]@ == lower_of(known@[q]@),
            forall|i: int|
                0 <= i < r@.len() ==> carries_label(messages@, #[trigger] r@[i]@) && is_unknown(
                    known@,
                    r@[i]@,
                ),
            forall|a: int, b: int|
                0 <= a < m && 0 <= b < messages@[a].labels@.len() && is_unknown(
                    known@,
                    #[trigger] messages@[a].labels@[b]@,
                ) ==> seq_holds(r@, messages@[a].labels@[b]@),
            forall|i: int, q: int| 0 <= i < q < r@.len() ==> r@[i]@ != r@[q]@,
        decreases messages@.len() - m,
    {
        let labels = &messages[m].labels;
        let mut j: usize = 0;
        while j < labels.len()
            invariant
                m < messages@.len(),
                *labels == messages@[m as int].labels,
                j <= labels@.len(),
                lows@.len() == known@.len(),
                forall|q: int|
                    0 <= q < lows@.len() ==> #[trigger] lows@[q]@ == lower_of(known@[q]@),
                forall|i: int|
                    0 <= i < r@.len() ==> carries_label(messages@, #[trigger] r@[i]@)
                        && is_unknown(known@, r@[i]@),
                forall|a: int, b: int|
                    0 <= a < m && 0 <= b < messages@[a].labels@.len() && is_unknown(
                        known@,
                        #[trigger] messages@[a].labels@[b]@,
                    ) ==> seq_holds(r@, messages@[a].labels@[b]@),
                forall|b: int|
                    0 <= b < j && is_unknown(known@, #[trigger] labels@[b]@) ==> seq_holds(
                        r@,
                        labels@[b]@,
                    ),
                forall|i: int, q: int| 0 <= i < q < r@.len() ==> r@[i]@ != r@[q]@,
            decreases labels@.len() - j,
        {
            let label = &labels[j];
            let low = lowercase(label.as_str());
            let matched = holds_text(&lows, low.as_str());
            if !matched {
                assert(is_unknown(known@, label@)) by {
                    assert forall|q: int| 0 <= q < known@.len() implies lower_of(
                        #[trigger] known@[q]@,
                    ) != lower_of(label@) by {
                        assert(lows@[q]@ == lower_of(known@[q]@));
                    }
                }
                if !holds_text(&r, label.as_str()) {
                    let ghost old_r = r@;
                    assert(carries_label(messages@, label@)) by {
                        assert(messages@[m as int].labels@[j as int]@ == label@);
                    }
                    r.push(label.clone());
                    assert forall|x: Seq<char>| seq_holds(old_r, x) implies seq_holds(r@, x) by {
                        let i = choose|i: int| 0 <= i < old_r.len() && #[trigger] old_r[i]@ == x;
                        assert(r@[i]@ == x);
                    }
                    assert(seq_holds(r@, label@)) by {
                        assert(r@[old_r.len() as int]@ == label@);
                    }
                }
            } else {
                assert(!is_unknown(known@, label@)) by {
                    let q = choose|q: int| 0 <= q < lows@.len() && #[trigger] lows@[q]@ == low@;
                    assert(lower_of(known@[q]@) == lower_of(label@));
                }
            }
            j = j + 1;
        }
        m = m + 1;
    }
    r
}

} // verus!

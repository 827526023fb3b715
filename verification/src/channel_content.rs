use vstd::prelude::*;

verus! {

/// The serialized form of one `(name, url)` channel entry: `<url> <name>`.
pub open spec fn spec_line(entry: (String, String)) -> Seq<char> {
    entry.1@ + seq![' '] + entry.0@
}

/// The serialized channel list: one line per entry, caller order preserved,
/// lines joined by a single `\n`, no trailing newline.
pub open spec fn spec_content(entries: Seq<(String, String)>) -> Seq<char>
    decreases entries.len(),
{
    if entries.len() == 0 {
        Seq::<char>::empty()
    } else if entries.len() == 1 {
        spec_line(entries[0])
    } else {
        spec_content(entries.drop_last()) + seq!['\n'] + spec_line(entries.last())
    }
}

/// Serializes a channel list to the configuration file's content.
pub fn serialize_channels(channels: &Vec<(String, String)>) -> (r: String)
    ensures
        r@ == spec_content(channels@),
{
    let mut buf = String::from_str("");
    proof {
        reveal_strlit("");
        reveal_strlit("\n");
        reveal_strlit(" ");
        assert(buf@ =~= spec_content(channels@.take(0)));
    }
    let mut i: usize = 0;
    while i < channels.len()
        invariant
            0 <= i <= channels@.len(),
            buf@ == spec_content(channels@.take(i as int)),
        decreases channels@.len() - i,
    {
        if i > 0 {
            buf.append("\n");
        }
        buf.append(channels[i].1.as_str());
        buf.append(" ");
        buf.append(channels[i].0.as_str());
        proof {
            reveal_strlit("\n");
            reveal_strlit(" ");
            assert(channels@.take(i + 1 as int).drop_last() =~= channels@.take(i as int));
            assert(channels@.take(i + 1 as int).last() == channels@[i as int]);
            assert(buf@ =~= spec_content(channels@.take(i + 1 as int)));
        }
        i = i + 1;
    }
    proof {
        assert(channels@.take(channels@.len() as int) =~= channels@);
    }
    buf
}

/// The lines of a text: the maximal runs of characters between `\n`
/// separators. A text without `\n` is one line, so an empty text has one
/// empty line.
pub open spec fn spec_lines(s: Seq<char>) -> Seq<Seq<char>>
    decreases s.len(),
{
    if s.len() == 0 {
        seq![Seq::<char>::empty()]
    } else if s[0] == '\n' {
        seq![Seq::<char>::empty()] + spec_lines(s.drop_first())
    } else {
        let rest = spec_lines(s.drop_first());
        seq![seq![s[0]] + rest[0]] + rest.drop_first()
    }
}

/// A text without `\n` is exactly one line: itself.
pub proof fn lemma_lines_single(s: Seq<char>)
    requires
        !s.contains('\n'),
    ensures
        spec_lines(s) =~~= seq![s],
    decreases s.len(),
{
    if s.len() == 0 {
        assert(spec_lines(s) =~~= seq![s]);
    } else {
        assert(s[0] != '\n') by {
            if s[0] == '\n' {
                assert(s.contains('\n'));
            }
        }
        assert(!s.drop_first().contains('\n')) by {
            if s.drop_first().contains('\n') {
                let k = choose|k: int|
                    0 <= k < s.drop_first().len() && s.drop_first()[k] == '\n';
                assert(s[k + 1] == '\n');
                assert(s.contains('\n'));
            }
        }
        lemma_lines_single(s.drop_first());
        let rest = spec_lines(s.drop_first());
        assert(rest[0] == s.drop_first());
        assert(seq![s[0]] + rest[0] =~= s);
        assert(rest.drop_first() =~~= Seq::<Seq<char>>::empty());
        assert(spec_lines(s) =~~= seq![s]);
    }
}

/// Splitting distributes over one separator: the lines of
/// `<line>\n<rest>` are the line followed by the lines of the rest.
pub proof fn lemma_lines_concat(t: Seq<char>, s: Seq<char>)
    requires
        !t.contains('\n'),
    ensures
        spec_lines(t + seq!['\n'] + s) =~~= seq![t] + spec_lines(s),
    decreases t.len(),
{
    let u = t + seq!['\n'] + s;
    if t.len() == 0 {
        assert(u[0] == '\n');
        assert(u.drop_first() =~= s);
        assert(Seq::<char>::empty() =~= t);
        assert(spec_lines(u) =~~= seq![t] + spec_lines(s));
    } else {
        assert(t[0] != '\n') by {
            if t[0] == '\n' {
                assert(t.contains('\n'));
            }
        }
        assert(u[0] == t[0]);
        assert(!t.drop_first().contains('\n')) by {
            if t.drop_first().contains('\n') {
                let k = choose|k: int|
                    0 <= k < t.drop_first().len() && t.drop_first()[k] == '\n';
                assert(t[k + 1] == '\n');
                assert(t.contains('\n'));
            }
        }
        assert(u.drop_first() =~= t.drop_first() + seq!['\n'] + s);
        lemma_lines_concat(t.drop_first(), s);
        let rest = spec_lines(u.drop_first());
        assert(rest == seq![t.drop_first()] + spec_lines(s));
        assert(rest[0] == t.drop_first());
        assert(seq![u[0]] + rest[0] =~= t);
        assert(rest.drop_first() =~~= spec_lines(s));
        assert(spec_lines(u) =~~= seq![t] + spec_lines(s));
    }
}

/// A serialized line holds no `\n` when its name and URL hold none.
pub proof fn lemma_line_no_newline(entry: (String, String))
    requires
        !entry.0@.contains('\n'),
        !entry.1@.contains('\n'),
    ensures
        !spec_line(entry).contains('\n'),
{
    let line = spec_line(entry);
    if line.contains('\n') {
        let k = choose|k: int| 0 <= k < line.len() && line[k] == '\n';
        if k < entry.1@.len() {
            assert(entry.1@[k] == '\n');
            assert(entry.1@.contains('\n'));
        } else if k == entry.1@.len() {
            assert(line[k] == ' ');
        } else {
            assert(entry.0@[k - entry.1@.len() - 1] == '\n');
            assert(entry.0@.contains('\n'));
        }
    }
}

/// For a channel list of at least two entries, the serialized content also
/// decomposes at the front: the first line, a separator, then the rest.
pub proof fn lemma_content_unfold_front(entries: Seq<(String, String)>)
    requires
        entries.len() >= 2,
    ensures
        spec_content(entries) == spec_line(entries[0]) + seq!['\n'] + spec_content(
            entries.drop_first(),
        ),
    decreases entries.len(),
{
    if entries.len() == 2 {
        assert(entries.drop_last() =~= seq![entries[0]]);
        assert(entries.drop_first() =~= seq![entries[1]]);
        assert(spec_content(seq![entries[0]]) == spec_line(entries[0]));
        assert(spec_content(seq![entries[1]]) == spec_line(entries[1]));
        assert(spec_content(entries) =~= spec_line(entries[0]) + seq!['\n'] + spec_content(
            entries.drop_first(),
        ));
    } else {
        let dl = entries.drop_last();
        let df = entries.drop_first();
        lemma_content_unfold_front(dl);
        assert(dl[0] == entries[0]);
        assert(dl.drop_first() =~= df.drop_last());
        assert(df.last() == entries.last());
        assert(df.len() >= 2);
        assert(spec_content(entries) == spec_content(dl) + seq!['\n'] + spec_line(entries.last()));
        assert(spec_content(df) == spec_content(df.drop_last()) + seq!['\n'] + spec_line(
            df.last(),
        ));
        assert(spec_content(entries) =~= spec_line(entries[0]) + seq!['\n'] + spec_content(df));
    }
}

/// Law: for a non-empty channel list, unique by name, whose names and URLs
/// hold no newline, the serialized content splits into exactly one line per
/// entry, each the entry's `"<url> <name>"`, in the order of the list.
pub proof fn lemma_content_lines(entries: Seq<(String, String)>)
    requires
        entries.len() > 0,
        forall|i: int, j: int|
            0 <= i < j < entries.len() ==> (#[trigger] entries[i]).0@ != (
            #[trigger] entries[j]).0@,
        forall|i: int|
            0 <= i < entries.len() ==> !(#[trigger] entries[i]).0@.contains('\n') && !entries[
                i
            ].1@.contains('\n'),
    ensures
        spec_lines(spec_content(entries)).len() == entries.len(),
        forall|i: int|
            0 <= i < entries.len() ==> spec_lines(spec_content(entries))[i] == spec_line(
                #[trigger] entries[i],
            ),
    decreases entries.len(),
{
    lemma_line_no_newline(entries[0]);
    if entries.len() == 1 {
        assert(spec_content(entries) == spec_line(entries[0]));
        lemma_lines_single(spec_line(entries[0]));
        assert(spec_lines(spec_content(entries)) =~~= seq![spec_line(entries[0])]);
    } else {
        let rest = entries.drop_first();
        lemma_content_unfold_front(entries);
        lemma_lines_concat(spec_line(entries[0]), spec_content(rest));
        assert(forall|i: int| 0 <= i < rest.len() ==> #[trigger] rest[i] == entries[i + 1]);
        lemma_content_lines(rest);
        let all_lines = spec_lines(spec_content(entries));
        assert(all_lines == seq![spec_line(entries[0])] + spec_lines(spec_content(rest)));
        assert(all_lines.len() == entries.len());
        assert(all_lines[0] == spec_line(entries[0]));
        assert forall|i: int|
            0 < i < entries.len() implies all_lines[i] == spec_line(#[trigger] entries[i]) by {
            assert(all_lines[i] == spec_lines(spec_content(rest))[i - 1]);
            assert(rest[i - 1] == entries[i]);
            assert(spec_lines(spec_content(rest))[i - 1] == spec_line(rest[i - 1]));
        }
    }
}

} // verus!

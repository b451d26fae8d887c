//! The remotes of a repository, and what a remote lists.

use crate::exchange::{Answer, Query, QueryView, Step, Violation};
use crate::repository::Repository;
use crate::text::{
    after,
    after_first,
    before,
    before_first,
    listed,
    listed_of,
    lossy,
    lossy_text,
    maybe,
    same,
    texts,
};
use vstd::prelude::*;

verus! {

/// A remote with its addresses.
#[derive(Debug, PartialEq, Eq)]
pub struct Remote {
    pub name: String,
    /// Where to push to, if the tool listed that.
    pub push: Option<String>,
    /// Where to fetch from, if the tool listed that.
    pub fetch: Option<String>,
}

/// A `Remote` as specifications see it.
pub struct RemoteView {
    pub name: Seq<char>,
    pub push: Option<Seq<char>>,
    pub fetch: Option<Seq<char>>,
}

impl View for Remote {
    type V = RemoteView;

    open spec fn view(&self) -> RemoteView {
        RemoteView { name: self.name@, push: maybe(self.push), fetch: maybe(self.fetch) }
    }
}

impl Clone for Remote {
    fn clone(&self) -> (copy: Self)
        ensures
            copy@ == self@,
    {
        Remote {
            name: self.name.clone(),
            push: match &self.push {
                Some(url) => Some(url.clone()),
                None => None,
            },
            fetch: match &self.fetch {
                Some(url) => Some(url.clone()),
                None => None,
            },
        }
    }
}

/// The views of a list of remotes.
pub open spec fn remotes_view(list: Seq<Remote>) -> Seq<RemoteView> {
    list.map_values(|r: Remote| r@)
}

/// Which of the two addresses of a remote a line gives.
#[derive(Debug, Clone, Copy, PartialEq, Eq, Structural)]
pub enum RemoteDir {
    Fetch,
    Push,
}

/// What one line of the list of remotes says.
pub struct RemoteLine {
    pub name: String,
    pub url: String,
    pub dir: RemoteDir,
}

/// A `RemoteLine` as specifications see it.
pub struct RemoteLineView {
    pub name: Seq<char>,
    pub url: Seq<char>,
    pub dir: RemoteDir,
}

impl View for RemoteLine {
    type V = RemoteLineView;

    open spec fn view(&self) -> RemoteLineView {
        RemoteLineView { name: self.name@, url: self.url@, dir: self.dir }
    }
}

/// The views of a list of such lines.
pub open spec fn remote_lines_view(list: Seq<RemoteLine>) -> Seq<RemoteLineView> {
    list.map_values(|l: RemoteLine| l@)
}

/// What a line of the list of remotes says. The line holds the name, a tab, the address,
/// a space and the direction; whatever follows a second tab or a second space is left
/// aside. The direction is `(fetch)`, and everything else is a push. A line without the
/// tab, or without the space behind the address, says nothing.
pub open spec fn remote_line(text: Seq<char>) -> Option<RemoteLineView> {
    match after(text, '\t') {
        None => None,
        Some(behind) => {
            let rest = before(behind, '\t');
            match after(rest, ' ') {
                None => None,
                Some(tail) => Some(
                    RemoteLineView {
                        name: before(text, '\t'),
                        url: before(rest, ' '),
                        dir: if before(tail, ' ') == "(fetch)"@ {
                            RemoteDir::Fetch
                        } else {
                            RemoteDir::Push
                        },
                    },
                ),
            }
        },
    }
}

/// What the lines say, where each of them says something.
pub open spec fn remote_lines(list: Seq<Seq<char>>) -> Option<Seq<RemoteLineView>>
    decreases list.len(),
{
    if list.len() == 0 {
        Some(Seq::empty())
    } else {
        match (remote_lines(list.drop_last()), remote_line(list.last())) {
            (Some(said), Some(line)) => Some(said.push(line)),
            _ => None,
        }
    }
}

/// Where the first remote called `name` stands in `list`: `list.len()` if there is none.
pub open spec fn place(list: Seq<RemoteView>, name: Seq<char>) -> nat
    decreases list.len(),
{
    if list.len() == 0 || list[0].name == name {
        0
    } else {
        1 + place(list.drop_first(), name)
    }
}

/// `remote` with the address that `line` gives.
pub open spec fn addressed(remote: RemoteView, line: RemoteLineView) -> RemoteView {
    match line.dir {
        RemoteDir::Fetch => RemoteView { fetch: Some(line.url), ..remote },
        RemoteDir::Push => RemoteView { push: Some(line.url), ..remote },
    }
}

/// `list` with what `line` says: the remote of that name gets the address, and a remote
/// that `list` does not hold yet is added at its end.
pub open spec fn noted(list: Seq<RemoteView>, line: RemoteLineView) -> Seq<RemoteView> {
    let at = place(list, line.name) as int;
    if at < list.len() {
        list.update(at, addressed(list[at], line))
    } else {
        list.push(addressed(RemoteView { name: line.name, push: None, fetch: None }, line))
    }
}

/// The remotes that the lines tell of, each once, in the order in which the lines first
/// name them. Where two lines give the same address of one remote, the later one counts.
pub open spec fn gathered(said: Seq<RemoteLineView>) -> Seq<RemoteView>
    decreases said.len(),
{
    if said.len() == 0 {
        Seq::empty()
    } else {
        noted(gathered(said.drop_last()), said.last())
    }
}

/// No two remotes of `list` have the same name.
pub open spec fn distinct(list: Seq<RemoteView>) -> bool {
    forall|i: int, j: int| 0 <= i < j < list.len() ==> list[i].name != list[j].name
}

proof fn lemma_place(list: Seq<RemoteView>, name: Seq<char>, k: int)
    requires
        0 <= k <= list.len(),
        forall|j: int| 0 <= j < k ==> (#[trigger] list[j]).name != name,
    ensures
        place(list, name) == k + place(list.skip(k), name),
        place(list, name) <= list.len(),
    decreases list.len(),
{
    if list.len() == 0 {
        assert(list.skip(0) =~= list);
    } else if k == 0 {
        assert(list.skip(0) =~= list);
        if list[0].name != name {
            lemma_place(list.drop_first(), name, 0);
        }
    } else {
        let rest = list.drop_first();
        assert(list[0].name != name);
        assert forall|j: int| 0 <= j < k - 1 implies (#[trigger] rest[j]).name != name by {
            assert(rest[j] == list[j + 1]);
        }
        lemma_place(rest, name, k - 1);
        assert(rest.skip(k - 1) =~= list.skip(k));
    }
}

/// No remote before the place of a name has that name.
proof fn lemma_before_place(list: Seq<RemoteView>, name: Seq<char>, j: int)
    requires
        0 <= j < place(list, name),
    ensures
        j < list.len(),
        list[j].name != name,
    decreases list.len(),
{
    if list.len() > 0 && list[0].name != name && j > 0 {
        lemma_before_place(list.drop_first(), name, j - 1);
    }
}

/// Noting a line keeps the names distinct.
pub proof fn noted_keeps_distinct(list: Seq<RemoteView>, line: RemoteLineView)
    requires
        distinct(list),
    ensures
        distinct(noted(list, line)),
{
    lemma_place(list, line.name, 0);
    let at = place(list, line.name) as int;
    let next = noted(list, line);
    assert forall|i: int, j: int| 0 <= i < j < next.len() implies next[i].name != next[j].name by {
        if at >= list.len() && j == list.len() {
            lemma_before_place(list, line.name, i);
        }
    }
}

/// The remotes that lines tell of have distinct names.
pub proof fn gathered_is_distinct(said: Seq<RemoteLineView>)
    ensures
        distinct(gathered(said)),
    decreases said.len(),
{
    if said.len() > 0 {
        gathered_is_distinct(said.drop_last());
        noted_keeps_distinct(gathered(said.drop_last()), said.last());
    }
}

/// What one line of the list of remotes says.
pub fn parse_remote_line(line: &str) -> (said: Option<RemoteLine>)
    ensures
        match said {
            Some(l) => remote_line(line@) == Some(l@),
            None => remote_line(line@).is_none(),
        },
{
    let name = before_first(line, '\t');
    match after_first(line, '\t') {
        None => None,
        Some(behind) => {
            let rest = before_first(behind.as_str(), '\t');
            let url = before_first(rest.as_str(), ' ');
            match after_first(rest.as_str(), ' ') {
                None => None,
                Some(tail) => {
                    let word = before_first(tail.as_str(), ' ');
                    let dir = if same(word.as_str(), "(fetch)") {
                        RemoteDir::Fetch
                    } else {
                        RemoteDir::Push
                    };
                    Some(RemoteLine { name, url, dir })
                },
            }
        },
    }
}

/// Notes in `list` what `line` says.
fn note(list: &mut Vec<Remote>, line: RemoteLine)
    ensures
        remotes_view(final(list)@) == noted(remotes_view(old(list)@), line@),
{
    let ghost before = remotes_view(list@);
    let mut at: usize = 0;
    while at < list.len() && !same(list[at].name.as_str(), line.name.as_str())
        invariant
            0 <= at <= list.len(),
            before == remotes_view(list@),
            forall|j: int| 0 <= j < at ==> (#[trigger] before[j]).name != line.name@,
        decreases list.len() - at,
    {
        at += 1;
    }
    proof {
        lemma_place(before, line.name@, at as int);
        if at < list.len() {
            assert(before.skip(at as int)[0] == before[at as int]);
        }
    }
    if at < list.len() {
        let known = list[at].clone();
        let remote = match line.dir {
            RemoteDir::Fetch => Remote { name: known.name, push: known.push, fetch: Some(line.url) },
            RemoteDir::Push => Remote { name: known.name, push: Some(line.url), fetch: known.fetch },
        };
        list.set(at, remote);
        assert(remotes_view(list@) =~= noted(before, line@));
    } else {
        let remote = match line.dir {
            RemoteDir::Fetch => Remote { name: line.name, push: None, fetch: Some(line.url) },
            RemoteDir::Push => Remote { name: line.name, push: Some(line.url), fetch: None },
        };
        list.push(remote);
        assert(remotes_view(list@) =~= noted(before, line@));
    }
}

/// The remotes that `text` lists, one line for each address; `None` where one of the
/// lines says nothing.
pub fn parse_remotes(text: &str) -> (list: Option<Vec<Remote>>)
    ensures
        match list {
            Some(l) => remote_lines(listed(text@)) matches Some(said) && remotes_view(l@)
                == gathered(said) && distinct(remotes_view(l@)),
            None => remote_lines(listed(text@)).is_none(),
        },
{
    let all = listed_of(text);
    let ghost wanted = texts(all@);
    let mut said: Vec<RemoteLine> = Vec::new();
    let mut i: usize = 0;
    assert(wanted.take(0) =~= Seq::empty());
    assert(remote_lines_view(said@) =~= Seq::empty());
    while i < all.len()
        invariant
            0 <= i <= all.len(),
            wanted == texts(all@),
            wanted == listed(text@),
            remote_lines(wanted.take(i as int)) == Some(remote_lines_view(said@)),
        decreases all.len() - i,
    {
        let ghost done = remote_lines_view(said@);
        proof {
            let next = wanted.take(i + 1);
            assert(next.drop_last() =~= wanted.take(i as int));
            assert(next.last() == all@[i as int]@);
        }
        match parse_remote_line(all[i].as_str()) {
            Some(line) => {
                assert(remote_lines_view(said@.push(line)) =~= done.push(line@));
                said.push(line);
            },
            None => {
                proof {
                    lemma_remote_lines_fail(wanted, i + 1);
                    assert(wanted.take(wanted.len() as int) =~= wanted);
                }
                return None;
            },
        }
        i += 1;
    }
    assert(wanted.take(i as int) =~= wanted);
    let ghost parsed = remote_lines_view(said@);
    let mut list: Vec<Remote> = Vec::new();
    let mut k: usize = 0;
    assert(parsed.take(0) =~= Seq::empty());
    assert(remotes_view(list@) =~= Seq::empty());
    while k < said.len()
        invariant
            0 <= k <= said.len(),
            parsed == remote_lines_view(said@),
            remotes_view(list@) == gathered(parsed.take(k as int)),
        decreases said.len() - k,
    {
        proof {
            let next = parsed.take(k + 1);
            assert(next.drop_last() =~= parsed.take(k as int));
            assert(next.last() == said@[k as int]@);
        }
        let line = RemoteLine {
            name: said[k].name.clone(),
            url: said[k].url.clone(),
            dir: said[k].dir,
        };
        note(&mut list, line);
        k += 1;
    }
    proof {
        assert(parsed.take(k as int) =~= parsed);
        gathered_is_distinct(parsed);
    }
    Some(list)
}

/// Lines of which some first part says nothing say nothing.
proof fn lemma_remote_lines_fail(list: Seq<Seq<char>>, k: int)
    requires
        0 <= k <= list.len(),
        remote_lines(list.take(k)).is_none(),
    ensures
        remote_lines(list).is_none(),
    decreases list.len() - k,
{
    if k < list.len() {
        let next = list.take(k + 1);
        assert(next.drop_last() =~= list.take(k));
        lemma_remote_lines_fail(list, k + 1);
    } else {
        assert(list.take(k) =~= list);
    }
}

impl Repository {
    /// The remotes of the repository: `None` where the tool fails to list them. They
    /// come as a list in which no name stands twice, which is as much as a map from the
    /// names to the remotes.
    ///
    /// Asks for one call. It is a violation where the call cannot be made and where a
    /// line of the list does not read as a remote.
    pub fn remotes(&self, told: &[Answer]) -> (step: Step<Option<Vec<Remote>>>)
        ensures
            if told@.len() == 0 {
                step matches Step::Ask(query) && query@ == QueryView::Run(
                    self@.git().arg("remote"@).arg("-v"@),
                )
            } else {
                match told@[0] {
                    Answer::Ran(outcome) => if !outcome@.success() {
                        step matches Step::Done(None)
                    } else {
                        match remote_lines(listed(lossy_text(outcome@.stdout))) {
                            Some(said) => step matches Step::Done(Some(list)) && remotes_view(
                                list@,
                            ) == gathered(said) && distinct(remotes_view(list@)),
                            None => step matches Step::Fatal(Violation::Output),
                        }
                    },
                    Answer::Failed(_) => step matches Step::Fatal(Violation::Launch),
                    _ => step matches Step::Fatal(Violation::Answer),
                }
            },
    {
        if told.len() == 0 {
            return Step::Ask(Query::Run(self.git().arg("remote").arg("-v")));
        }
        match &told[0] {
            Answer::Ran(outcome) => {
                if !outcome.success() {
                    return Step::Done(None);
                }
                let text = lossy(outcome.stdout.as_slice());
                match parse_remotes(text.as_str()) {
                    Some(list) => Step::Done(Some(list)),
                    None => Step::Fatal(Violation::Output),
                }
            },
            Answer::Failed(_) => Step::Fatal(Violation::Launch),
            _ => Step::Fatal(Violation::Answer),
        }
    }
}

} // verus!

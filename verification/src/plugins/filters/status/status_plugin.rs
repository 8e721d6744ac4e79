//! The health of the backends as it is stored: one hash for each gateway,
//! whose fields are backend names and whose values are status tags.
//!
//! The hash lives in the cache. What is written to it is handed to the caller
//! as commands; what they do to the hash is stated here over a map.
use crate::basic::text::str_eq;
use vstd::prelude::*;
use vstd::string::*;

verus! {

/// The health of a backend.
#[derive(Debug, Clone, Copy, PartialEq, Eq, Structural)]
pub enum Status {
    /// The backend answers.
    Good,
    /// The backend has failed lately.
    Minor,
    /// The backend keeps failing.
    Major,
}

impl Default for Status {
    fn default() -> (status: Status)
        ensures
            status == Status::Good,
    {
        Status::Good
    }
}

/// The tag under which a status is stored.
pub open spec fn spec_tag(status: Status) -> Seq<char> {
    match status {
        Status::Good => "Good"@,
        Status::Minor => "Minor"@,
        Status::Major => "Major"@,
    }
}

/// The status that a stored tag stands for.
pub open spec fn spec_from_tag(tag: Seq<char>) -> Option<Status> {
    if tag == "Good"@ {
        Some(Status::Good)
    } else if tag == "Minor"@ {
        Some(Status::Minor)
    } else if tag == "Major"@ {
        Some(Status::Major)
    } else {
        None
    }
}

/// Reading back the tag of a status gives that status.
pub proof fn lemma_tag_round_trip(status: Status)
    ensures
        spec_from_tag(spec_tag(status)) == Some(status),
{
    reveal_strlit("Good");
    reveal_strlit("Minor");
    reveal_strlit("Major");
    assert("Good"@.len() == 4);
    assert("Minor"@.len() == 5);
    assert("Major"@.len() == 5);
    assert("Minor"@[1] == 'i');
    assert("Major"@[1] == 'a');
}

impl Status {
    /// The tag under which this status is stored.
    pub fn tag(&self) -> (tag: &'static str)
        ensures
            tag@ == spec_tag(*self),
    {
        match self {
            Status::Good => "Good",
            Status::Minor => "Minor",
            Status::Major => "Major",
        }
    }

    /// The status that a stored tag stands for; `None` for any other text.
    pub fn from_tag(tag: &str) -> (status: Option<Status>)
        ensures
            status == spec_from_tag(tag@),
    {
        if str_eq(tag, "Good") {
            Some(Status::Good)
        } else if str_eq(tag, "Minor") {
            Some(Status::Minor)
        } else if str_eq(tag, "Major") {
            Some(Status::Major)
        } else {
            None
        }
    }
}

/// One write to the stored health.
#[derive(Debug)]
pub enum StoreCommand {
    /// Delete the hash `key`.
    Clean { key: String },
    /// Set the field `backend` of the hash `key` to `status`, whatever it
    /// held.
    Update { key: String, backend: String, status: Status },
}

/// The mathematical content of a [`StoreCommand`].
pub enum StoreCommandView {
    Clean { key: Seq<char> },
    Update { key: Seq<char>, backend: Seq<char>, status: Status },
}

impl View for StoreCommand {
    type V = StoreCommandView;

    open spec fn view(&self) -> StoreCommandView {
        match self {
            StoreCommand::Clean { key } => StoreCommandView::Clean { key: key@ },
            StoreCommand::Update { key, backend, status } => StoreCommandView::Update {
                key: key@,
                backend: backend@,
                status: *status,
            },
        }
    }
}

/// The commands of `commands` by their content.
pub open spec fn commands_view(commands: Seq<StoreCommand>) -> Seq<StoreCommandView> {
    Seq::new(commands.len(), |i: int| commands[i]@)
}

/// The status that the store holds for `backend` under `key`.
pub open spec fn spec_get_status(
    store: Map<Seq<char>, Map<Seq<char>, Status>>,
    key: Seq<char>,
    backend: Seq<char>,
) -> Option<Status> {
    if store.contains_key(key) && store[key].contains_key(backend) {
        Some(store[key][backend])
    } else {
        None
    }
}

/// The store after the hash `key` was deleted.
pub open spec fn spec_clean_status(
    store: Map<Seq<char>, Map<Seq<char>, Status>>,
    key: Seq<char>,
) -> Map<Seq<char>, Map<Seq<char>, Status>> {
    store.remove(key)
}

/// The store after `status` was written for `backend` under `key`.
pub open spec fn spec_update_status(
    store: Map<Seq<char>, Map<Seq<char>, Status>>,
    key: Seq<char>,
    backend: Seq<char>,
    status: Status,
) -> Map<Seq<char>, Map<Seq<char>, Status>> {
    let hash = if store.contains_key(key) {
        store[key]
    } else {
        Map::empty()
    };
    store.insert(key, hash.insert(backend, status))
}

/// The store after one command.
pub open spec fn spec_apply(
    store: Map<Seq<char>, Map<Seq<char>, Status>>,
    command: StoreCommandView,
) -> Map<Seq<char>, Map<Seq<char>, Status>> {
    match command {
        StoreCommandView::Clean { key } => spec_clean_status(store, key),
        StoreCommandView::Update { key, backend, status } => spec_update_status(
            store,
            key,
            backend,
            status,
        ),
    }
}

/// The store after the commands of `commands`, the first one first.
pub open spec fn spec_apply_all(
    store: Map<Seq<char>, Map<Seq<char>, Status>>,
    commands: Seq<StoreCommandView>,
) -> Map<Seq<char>, Map<Seq<char>, Status>>
    decreases commands.len(),
{
    if commands.len() == 0 {
        store
    } else {
        spec_apply(spec_apply_all(store, commands.drop_last()), commands.last())
    }
}

/// The command that deletes the hash `key`.
pub fn clean_status(key: &str) -> (command: StoreCommand)
    ensures
        command@ == (StoreCommandView::Clean { key: key@ }),
{
    StoreCommand::Clean { key: String::from_str(key) }
}

/// The command that writes `status` for `backend` under `key`.
pub fn update_status(backend: &str, key: &str, status: Status) -> (command: StoreCommand)
    ensures
        command@ == (StoreCommandView::Update { key: key@, backend: backend@, status }),
{
    StoreCommand::Update { key: String::from_str(key), backend: String::from_str(backend), status }
}

/// The status that the value of a field stands for: nothing where the field
/// is missing or holds no status tag.
pub fn get_status(stored: Option<&str>) -> (status: Option<Status>)
    ensures
        status == match stored {
            Some(tag) => spec_from_tag(tag@),
            None => None,
        },
{
    match stored {
        Some(tag) => Status::from_tag(tag),
        None => None,
    }
}

/// One row of the status page: a backend and its status.
pub open spec fn spec_status_row(backend: Seq<char>, status: Status) -> Seq<char> {
    "<tr><td>"@ + backend + "</td><td>"@ + spec_tag(status) + "</td></tr>"@
}

/// The rows of the status page for `entries`, in their order.
pub open spec fn spec_status_rows(entries: Seq<(Seq<char>, Status)>) -> Seq<char>
    decreases entries.len(),
{
    if entries.len() == 0 {
        Seq::empty()
    } else {
        spec_status_rows(entries.drop_last()) + spec_status_row(
            entries.last().0,
            entries.last().1,
        )
    }
}

/// The status page: an HTML document with `title` as its title and heading,
/// and a table with one row for each backend of `entries`.
pub open spec fn spec_status_html(title: Seq<char>, entries: Seq<(Seq<char>, Status)>) -> Seq<char> {
    "<!DOCTYPE html><html><head><meta charset=\"utf-8\"><title>"@ + title
        + "</title></head><body><h1>"@ + title
        + "</h1><table><tr><th>Backend</th><th>Status</th></tr>"@ + spec_status_rows(entries)
        + "</table></body></html>"@
}

/// The backends of `entries` with their statuses, by their content.
pub open spec fn entries_view(entries: Seq<(String, Status)>) -> Seq<(Seq<char>, Status)> {
    Seq::new(entries.len(), |i: int| (entries[i].0@, entries[i].1))
}

/// Renders the status page of a gateway from what is stored of its backends.
pub fn create_status_html(title: &str, entries: &Vec<(String, Status)>) -> (html: String)
    ensures
        html@ == spec_status_html(title@, entries_view(entries@)),
{
    let mut html = String::from_str("<!DOCTYPE html><html><head><meta charset=\"utf-8\"><title>");
    html.append(title);
    html.append("</title></head><body><h1>");
    html.append(title);
    html.append("</h1><table><tr><th>Backend</th><th>Status</th></tr>");
    let ghost head = html@;
    let ghost all = entries_view(entries@);
    let mut i: usize = 0;
    assert(all.take(0) =~= Seq::empty());
    while i < entries.len()
        invariant
            i <= entries.len(),
            all == entries_view(entries@),
            html@ == head + spec_status_rows(all.take(i as int)),
        decreases entries.len() - i,
    {
        let ghost before = html@;
        html.append("<tr><td>");
        html.append(entries[i].0.as_str());
        html.append("</td><td>");
        html.append(entries[i].1.tag());
        html.append("</td></tr>");
        proof {
            let upto = all.take(i + 1);
            assert(upto.drop_last() =~= all.take(i as int));
            assert(upto.last() == all[i as int]);
            assert(html@ =~= before + spec_status_row(all[i as int].0, all[i as int].1));
        }
        i += 1;
    }
    assert(all.take(i as int) =~= all);
    html.append("</table></body></html>");
    html
}

} // verus!

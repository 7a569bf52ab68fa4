//! The walk through the folders of an archive, depth first: in each folder
//! its messages come first, in the archive's order, then its sub-folders one
//! after the other, each walked to its end before the next.
//!
//! The walker decides what comes next and under which id a message goes; the
//! caller fetches what the walker asks for and reports what it found.

use crate::document::{message_of, to_message, Message, MessageFields};
use crate::id::{id_text, message_id};
use crate::item::{indexes_from, SubItemsIterator};
use crate::progress::ProgressTracker;
use vstd::prelude::*;

verus! {

/// A folder that the walk has entered and not yet left.
struct Frame<F> {
    folder: F,
    messages: SubItemsIterator,
    folders: SubItemsIterator,
}

/// What is left to do in one folder: the indexes of its messages and of its
/// sub-folders that have not been fetched yet, in order.
pub struct Level {
    pub messages: Seq<int>,
    pub folders: Seq<int>,
}

/// What the caller is to do next.
#[derive(Debug, Clone, Copy, PartialEq, Eq, Structural)]
pub enum Step {
    /// Fetch the message at this index of the current folder and report
    /// its id with `message`.
    Message(i32),
    /// Fetch the sub-folder at this index of the current folder and report
    /// it with `enter`.
    Folder(i32),
    /// The walk is over.
    Done,
}

/// The levels that are still open once the innermost ones with nothing left
/// to do have been left, the root first.
pub open spec fn settled(levels: Seq<Level>) -> Seq<Level>
    decreases levels.len(),
{
    if levels.len() == 0 {
        levels
    } else if levels.last().messages.len() == 0 && levels.last().folders.len() == 0 {
        settled(levels.drop_last())
    } else {
        levels
    }
}

/// What comes next in the innermost open folder: its next message as long as
/// it has one, then its next sub-folder.
pub open spec fn step_of(levels: Seq<Level>) -> Step {
    if levels.len() == 0 {
        Step::Done
    } else if levels.last().messages.len() > 0 {
        Step::Message(levels.last().messages[0] as i32)
    } else if levels.last().folders.len() > 0 {
        Step::Folder(levels.last().folders[0] as i32)
    } else {
        Step::Done
    }
}

/// The levels with the innermost changed to `top`.
pub open spec fn with_top(levels: Seq<Level>, top: Level) -> Seq<Level> {
    levels.update(levels.len() - 1, top)
}

/// What is left to do in each of the frames, the root first.
spec fn levels_of<F>(frames: Seq<Frame<F>>) -> Seq<Level> {
    Seq::new(
        frames.len(),
        |i: int| Level { messages: frames[i].messages.pending(), folders: frames[i].folders.pending() },
    )
}

/// The folders of the frames, the root first.
spec fn folders_of<F>(frames: Seq<Frame<F>>) -> Seq<F> {
    Seq::new(frames.len(), |i: int| frames[i].folder)
}

/// The level of a folder with that many messages and sub-folders of which
/// nothing has been fetched yet. A count below 1 means none.
pub open spec fn level_of(messages: int, folders: int) -> Level {
    Level { messages: indexes_from(0, messages), folders: indexes_from(0, folders) }
}

/// The level once its next message is behind.
pub open spec fn after_message(level: Level) -> Level {
    Level {
        messages: if level.messages.len() > 0 {
            level.messages.drop_first()
        } else {
            level.messages
        },
        folders: level.folders,
    }
}

/// The level once its next sub-folder is behind.
pub open spec fn after_folder(level: Level) -> Level {
    Level {
        messages: level.messages,
        folders: if level.folders.len() > 0 {
            level.folders.drop_first()
        } else {
            level.folders
        },
    }
}

/// The state of a walk over folders of type `F`.
pub struct TreeWalker<F> {
    frames: Vec<Frame<F>>,
    id_path: Vec<u32>,
}

impl<F> TreeWalker<F> {
    /// What is left to do in each open folder, the root first.
    pub closed spec fn levels(&self) -> Seq<Level> {
        levels_of(self.frames@)
    }

    /// The open folders, the root first.
    pub closed spec fn folders(&self) -> Seq<F> {
        folders_of(self.frames@)
    }

    /// The ids of the open folders below the root, outermost first.
    pub closed spec fn path(&self) -> Seq<u32> {
        self.id_path@
    }

    /// Every open folder has its level, and every one but the root has its
    /// id in the path. This holds of every walker that the library hands
    /// out.
    pub open spec fn wf(&self) -> bool {
        &&& self.folders().len() == self.levels().len()
        &&& self.path().len() == if self.levels().len() == 0 {
            0
        } else {
            self.levels().len() - 1
        }
    }

    /// Every walker is well formed.
    #[verifier::type_invariant]
    spec fn well_formed(self) -> bool {
        self.wf()
    }

    /// A walk that is about to start in `root`, a folder with that many
    /// messages and sub-folders. A count below 1 means none.
    pub fn new(root: F, messages: i32, folders: i32) -> (walker: Self)
        ensures
            walker.wf(),
            walker.path() == Seq::<u32>::empty(),
            walker.folders() == seq![root],
            walker.levels() == seq![level_of(messages as int, folders as int)],
    {
        let mut frames: Vec<Frame<F>> = Vec::new();
        frames.push(
            Frame {
                folder: root,
                messages: SubItemsIterator::new(messages),
                folders: SubItemsIterator::new(folders),
            },
        );
        assert(folders_of(frames@) =~= seq![root]);
        assert(levels_of(frames@) =~= seq![level_of(messages as int, folders as int)]);
        TreeWalker { frames, id_path: Vec::new() }
    }

    /// A walk over nothing, for an archive without a root folder.
    pub fn empty() -> (walker: Self)
        ensures
            walker.wf(),
            walker.path() == Seq::<u32>::empty(),
            walker.folders() == Seq::<F>::empty(),
            walker.levels() == Seq::<Level>::empty(),
    {
        let frames: Vec<Frame<F>> = Vec::new();
        assert(folders_of(frames@) =~= Seq::<F>::empty());
        assert(levels_of(frames@) =~= Seq::<Level>::empty());
        TreeWalker { frames, id_path: Vec::new() }
    }

    /// Leaves every folder in which nothing is left to do, and says what
    /// comes next in the folder that is then innermost.
    pub fn next(&mut self) -> (step: Step)
        ensures
            old(self).wf(),
            final(self).wf(),
            final(self).levels() == settled(old(self).levels()),
            final(self).folders() == old(self).folders().take(final(self).levels().len() as int),
            final(self).path() == old(self).path().take(final(self).path().len() as int),
            step == step_of(final(self).levels()),
    {
        proof {
            use_type_invariant(&*self);
        }
        let mut taken = TreeWalker::empty();
        core::mem::swap(self, &mut taken);
        let TreeWalker { frames, id_path } = taken;
        let mut frames = frames;
        let mut id_path = id_path;
        let mut step = Step::Done;
        loop
            invariant_except_break
                id_path@.len() == if frames@.len() == 0 {
                    0
                } else {
                    frames@.len() - 1
                },
                settled(levels_of(frames@)) == settled(old(self).levels()),
                frames@.len() <= old(self).levels().len(),
                id_path@.len() <= old(self).path().len(),
                folders_of(frames@) == old(self).folders().take(frames@.len() as int),
                id_path@ == old(self).path().take(id_path@.len() as int),
            ensures
                id_path@.len() == if frames@.len() == 0 {
                    0
                } else {
                    frames@.len() - 1
                },
                levels_of(frames@) == settled(old(self).levels()),
                folders_of(frames@) == old(self).folders().take(frames@.len() as int),
                id_path@ == old(self).path().take(id_path@.len() as int),
                step == step_of(levels_of(frames@)),
            decreases frames.len(),
        {
            let depth = frames.len();
            if depth == 0 {
                step = Step::Done;
                break;
            }
            let top = &frames[depth - 1];
            proof {
                assert(levels_of(frames@).last().messages == top.messages.pending());
                assert(levels_of(frames@).last().folders == top.folders.pending());
            }
            match top.messages.next_index() {
                Some(index) => {
                    step = Step::Message(index);
                    break;
                },
                None => {},
            }
            match top.folders.next_index() {
                Some(index) => {
                    step = Step::Folder(index);
                    break;
                },
                None => {},
            }
            let ghost frames_before = frames@;
            let ghost path_before = id_path@;
            frames.pop();
            id_path.pop();
            proof {
                assert(levels_of(frames@) =~= levels_of(frames_before).drop_last());
                assert(folders_of(frames@) =~= folders_of(frames_before).drop_last());
                assert(folders_of(frames@) =~= old(self).folders().take(frames@.len() as int));
                if path_before.len() > 0 {
                    assert(id_path@ =~= path_before.drop_last());
                } else {
                    assert(id_path@ =~= path_before);
                }
                assert(id_path@ =~= old(self).path().take(id_path@.len() as int));
            }
        }
        *self = TreeWalker { frames, id_path };
        step
    }

    /// The folder from which the next message or sub-folder is to be
    /// fetched: the innermost open one.
    pub fn folder(&self) -> (folder: Option<&F>)
        ensures
            match folder {
                Some(folder) => self.folders().len() > 0 && *folder == self.folders().last(),
                None => self.folders().len() == 0,
            },
    {
        let depth = self.frames.len();
        if depth == 0 {
            None
        } else {
            Some(&self.frames[depth - 1].folder)
        }
    }

    /// Takes note of the message just fetched, whose own id is `message`,
    /// and moves on to the one after it.
    ///
    /// The result is the id under which the message goes, the path of the
    /// open folders followed by its own id, if the message is to be read: a
    /// message whose id the record already holds, with whichever outcome, is
    /// passed over and gives `None`.
    pub fn message(&mut self, tracker: &ProgressTracker, message: u32) -> (id: Option<String>)
        ensures
            old(self).wf(),
            final(self).wf(),
            final(self).path() == old(self).path(),
            final(self).folders() == old(self).folders(),
            final(self).levels() == if old(self).levels().len() > 0 {
                with_top(old(self).levels(), after_message(old(self).levels().last()))
            } else {
                old(self).levels()
            },
            match id {
                Some(id) => id@ == id_text(old(self).path().push(message))
                    && !tracker@.contains_key(id@),
                None => tracker@.contains_key(id_text(old(self).path().push(message))),
            },
    {
        proof {
            use_type_invariant(&*self);
        }
        let mut taken = TreeWalker::empty();
        core::mem::swap(self, &mut taken);
        let TreeWalker { frames, id_path } = taken;
        let mut frames = frames;
        let ghost before = frames@;
        let depth = frames.len();
        if depth > 0 {
            let mut messages = frames[depth - 1].messages;
            messages.advance();
            frames[depth - 1].messages = messages;
            proof {
                assert(folders_of(frames@) =~= folders_of(before));
                assert(levels_of(frames@) =~= with_top(
                    levels_of(before),
                    after_message(levels_of(before).last()),
                ));
            }
        }
        let id = message_id(id_path.as_slice(), message);
        *self = TreeWalker { frames, id_path };
        if tracker.contains_message(&id) {
            None
        } else {
            Some(id)
        }
    }

    /// Enters the sub-folder just fetched: `folder`, whose own id is `id`
    /// and which has that many messages and sub-folders. The folder it was
    /// fetched from moves on to its next sub-folder. Where no folder is
    /// open, nothing happens.
    pub fn enter(&mut self, folder: F, id: u32, messages: i32, folders: i32)
        ensures
            old(self).wf(),
            final(self).wf(),
            old(self).levels().len() == 0 ==> final(self).levels() == old(self).levels()
                && final(self).path() == old(self).path() && final(self).folders() == old(
                self,
            ).folders(),
            old(self).levels().len() > 0 ==> final(self).path() == old(self).path().push(id)
                && final(self).folders() == old(self).folders().push(folder)
                && final(self).levels() == with_top(
                old(self).levels(),
                after_folder(old(self).levels().last()),
            ).push(level_of(messages as int, folders as int)),
    {
        proof {
            use_type_invariant(&*self);
        }
        let mut taken = TreeWalker::empty();
        core::mem::swap(self, &mut taken);
        let TreeWalker { frames, id_path } = taken;
        let mut frames = frames;
        let mut id_path = id_path;
        let ghost before = frames@;
        let depth = frames.len();
        if depth > 0 {
            let mut siblings = frames[depth - 1].folders;
            siblings.advance();
            frames[depth - 1].folders = siblings;
            frames.push(
                Frame {
                    folder,
                    messages: SubItemsIterator::new(messages),
                    folders: SubItemsIterator::new(folders),
                },
            );
            id_path.push(id);
            proof {
                assert(folders_of(frames@) =~= folders_of(before).push(folder));
                assert(levels_of(frames@) =~= with_top(
                    levels_of(before),
                    after_folder(levels_of(before).last()),
                ).push(level_of(messages as int, folders as int)));
            }
        }
        *self = TreeWalker { frames, id_path };
    }
}

/// What goes onto the stream for a message that was to be read: its id with
/// its document, or its id alone where the message could not be read. A
/// message that cannot be read never ends the walk.
pub fn emission(id: String, include_body: bool, fields: Option<MessageFields>) -> (item: (
    String,
    Option<Message>,
))
    ensures
        item.0 == id,
        match fields {
            Some(fields) => item.1 matches Some(message) && message@ == message_of(
                id@,
                include_body,
                fields@,
            ),
            None => item.1 is None,
        },
{
    match fields {
        Some(fields) => {
            let message = to_message(id.clone(), include_body, fields);
            (id, Some(message))
        },
        None => (id, None),
    }
}

/// A folder as the walk sees it: its own id, the ids of its messages and
/// its sub-folders, both in the archive's order.
pub struct FolderModel {
    pub id: u32,
    pub messages: Seq<u32>,
    pub folders: Seq<FolderModel>,
}

/// Whether the folder and every folder below it hold no more messages and
/// sub-folders than an `i32` can count, as holds of every folder of an
/// archive.
pub open spec fn countable(folder: FolderModel) -> bool
    decreases folder,
{
    &&& folder.messages.len() <= i32::MAX
    &&& folder.folders.len() <= i32::MAX
    &&& forall|i: int| 0 <= i < folder.folders.len() ==> countable(#[trigger] folder.folders[i])
}

/// How many of `count` things are left from index `from` on.
pub open spec fn left(count: nat, from: int) -> nat {
    if 0 <= from < count {
        (count - from) as nat
    } else {
        0
    }
}

/// The paths of the messages still to come in `folder`, in the order of the
/// walk, when the messages before index `message` and the sub-folders
/// before index `sub` are behind: first the remaining messages of the folder
/// itself, then everything in each remaining sub-folder in turn. `path`
/// holds the ids that lead to the folder.
pub open spec fn rest_of(folder: FolderModel, path: Seq<u32>, message: int, sub: int) -> Seq<
    Seq<u32>,
>
    decreases folder, left(folder.messages.len(), message) + left(folder.folders.len(), sub),
{
    if 0 <= message < folder.messages.len() {
        seq![path.push(folder.messages[message])] + rest_of(folder, path, message + 1, sub)
    } else if 0 <= sub < folder.folders.len() {
        rest_of(folder.folders[sub], path.push(folder.folders[sub].id), 0, 0) + rest_of(
            folder,
            path,
            message,
            sub + 1,
        )
    } else {
        Seq::empty()
    }
}

/// The paths of all the messages below `root`, in the order of the walk.
pub open spec fn walk_order(root: FolderModel) -> Seq<Seq<u32>> {
    rest_of(root, Seq::empty(), 0, 0)
}

/// The level of a folder of which nothing has been fetched yet.
pub open spec fn fresh(folder: FolderModel) -> Level {
    level_of(folder.messages.len() as int, folder.folders.len() as int)
}

/// Whether `pending` holds the last indexes below `count`, in order.
pub open spec fn tail_of(pending: Seq<int>, count: int) -> bool {
    pending.len() <= count && pending == indexes_from(count - pending.len(), count)
}

/// Whether a level counts what is left of `folder`.
pub open spec fn counts(folder: FolderModel, level: Level) -> bool {
    &&& countable(folder)
    &&& tail_of(level.messages, folder.messages.len() as int)
    &&& tail_of(level.folders, folder.folders.len() as int)
}

/// Whether `folder`, reached under `id`, is the sub-folder that the level
/// `above` of the folder `around` it fetched last, its messages being done.
pub open spec fn entered(around: FolderModel, above: Level, folder: FolderModel, id: u32) -> bool {
    let fetched = around.folders.len() - above.folders.len() - 1;
    &&& above.messages.len() == 0
    &&& 0 <= fetched
    &&& folder == around.folders[fetched]
    &&& id == folder.id
}

/// Whether the levels are those of a walk that has the folders `nodes`
/// open, the root first: each level counts what is left of its folder, and
/// each folder but the root was entered from the one before it, under the
/// id that the path holds for it.
pub open spec fn follows(nodes: Seq<FolderModel>, levels: Seq<Level>, path: Seq<u32>) -> bool
    decreases nodes.len(),
{
    if nodes.len() == 0 {
        levels.len() == 0 && path.len() == 0
    } else {
        &&& levels.len() == nodes.len()
        &&& path.len() == nodes.len() - 1
        &&& counts(nodes.last(), levels.last())
        &&& nodes.len() > 1 ==> entered(
            nodes[nodes.len() - 2],
            levels[nodes.len() - 2],
            nodes.last(),
            path.last(),
        ) && follows(nodes.drop_last(), levels.drop_last(), path.drop_last())
    }
}

/// What is left in the innermost open folder of a walk.
pub open spec fn rest_inside(nodes: Seq<FolderModel>, levels: Seq<Level>, path: Seq<u32>) -> Seq<
    Seq<u32>,
> {
    rest_of(
        nodes.last(),
        path,
        nodes.last().messages.len() - levels.last().messages.len(),
        nodes.last().folders.len() - levels.last().folders.len(),
    )
}

/// The paths of the messages still to come in a walk, in its order: what is
/// left in the innermost open folder, then what is left in the one around
/// it, and so on out to the root.
pub open spec fn rest(nodes: Seq<FolderModel>, levels: Seq<Level>, path: Seq<u32>) -> Seq<
    Seq<u32>,
>
    decreases nodes.len(),
{
    if nodes.len() == 0 {
        Seq::empty()
    } else if nodes.len() == 1 {
        rest_inside(nodes, levels, path)
    } else {
        rest_inside(nodes, levels, path) + rest(
            nodes.drop_last(),
            levels.drop_last(),
            path.drop_last(),
        )
    }
}

/// A walk that starts in `root` has all of `walk_order(root)` before it.
pub proof fn lemma_walk_start(root: FolderModel)
    requires
        countable(root),
    ensures
        follows(seq![root], seq![fresh(root)], Seq::empty()),
        rest(seq![root], seq![fresh(root)], Seq::empty()) == walk_order(root),
{
}

/// After settling, the innermost open folder has something left to do.
proof fn lemma_settled(levels: Seq<Level>)
    ensures
        settled(levels).len() <= levels.len(),
        settled(levels) == levels.take(settled(levels).len() as int),
        settled(levels).len() > 0 ==> settled(levels).last().messages.len() > 0 || settled(
            levels,
        ).last().folders.len() > 0,
    decreases levels.len(),
{
    if levels.len() > 0 && levels.last().messages.len() == 0 && levels.last().folders.len() == 0 {
        let fewer = levels.drop_last();
        lemma_settled(fewer);
        assert(fewer.take(settled(fewer).len() as int) == levels.take(settled(fewer).len() as int));
    } else {
        assert(levels.take(levels.len() as int) == levels);
    }
}

/// Leaving the folders in which nothing is left changes nothing in what is
/// still to come.
pub proof fn lemma_walk_settle(nodes: Seq<FolderModel>, levels: Seq<Level>, path: Seq<u32>)
    requires
        follows(nodes, levels, path),
    ensures
        ({
            let open = settled(levels).len() as int;
            let inner = if open == 0 {
                0
            } else {
                open - 1
            };
            &&& open <= nodes.len()
            &&& inner <= path.len()
            &&& follows(nodes.take(open), settled(levels), path.take(inner))
            &&& rest(nodes.take(open), settled(levels), path.take(inner)) == rest(
                nodes,
                levels,
                path,
            )
        }),
    decreases nodes.len(),
{
    if nodes.len() == 0 {
        assert(nodes.take(0) == nodes);
        assert(path.take(0) == path);
    } else if levels.last().messages.len() == 0 && levels.last().folders.len() == 0 {
        let below = nodes.drop_last();
        let fewer = levels.drop_last();
        let shorter = if nodes.len() == 1 {
            path
        } else {
            path.drop_last()
        };
        assert(rest_inside(nodes, levels, path) == Seq::<Seq<u32>>::empty());
        assert(rest(nodes, levels, path) == rest(below, fewer, shorter));
        lemma_walk_settle(below, fewer, shorter);
        let open = settled(levels).len() as int;
        let inner = if open == 0 {
            0
        } else {
            open - 1
        };
        assert(nodes.take(open) == below.take(open));
        assert(path.take(inner) == shorter.take(inner));
    } else {
        assert(nodes.take(nodes.len() as int) == nodes);
        assert(path.take(nodes.len() - 1) == path);
    }
}

/// Where the walk asks for a message, that message is the next in
/// `walk_order`: it is the first of what is still to come, under the path
/// of the open folders, and the rest follows once it is noted.
pub proof fn lemma_walk_message(nodes: Seq<FolderModel>, levels: Seq<Level>, path: Seq<u32>)
    requires
        follows(nodes, levels, path),
        step_of(levels) is Message,
    ensures
        ({
            let index = step_of(levels)->Message_0 as int;
            let top = levels.last();
            let after = with_top(levels, after_message(top));
            &&& 0 <= index < nodes.last().messages.len()
            &&& follows(nodes, after, path)
            &&& rest(nodes, levels, path) == seq![path.push(nodes.last().messages[index])] + rest(
                nodes,
                after,
                path,
            )
        }),
{
    let node = nodes.last();
    let top = levels.last();
    let after = with_top(levels, after_message(top));
    let count = node.messages.len() as int;
    let at = count - top.messages.len();
    assert(top.messages[0] == at);
    assert(top.messages.drop_first() =~= indexes_from(at + 1, count));
    assert(after.drop_last() == levels.drop_last());
    assert(counts(node, after.last()));
    let first = seq![path.push(node.messages[at])];
    assert(rest_inside(nodes, levels, path) == first + rest_inside(nodes, after, path));
    if nodes.len() > 1 {
        assert(after[nodes.len() - 2] == levels[nodes.len() - 2]);
        let around = rest(nodes.drop_last(), levels.drop_last(), path.drop_last());
        assert((first + rest_inside(nodes, after, path)) + around =~= first + (rest_inside(
            nodes,
            after,
            path,
        ) + around));
    }
}

/// Where the walk asks for a sub-folder, entering it changes nothing in
/// what is still to come: the messages below it are next, and what was left
/// around it follows.
pub proof fn lemma_walk_enter(nodes: Seq<FolderModel>, levels: Seq<Level>, path: Seq<u32>)
    requires
        follows(nodes, levels, path),
        step_of(levels) is Folder,
    ensures
        ({
            let index = step_of(levels)->Folder_0 as int;
            let top = levels.last();
            let child = nodes.last().folders[index];
            let after = with_top(levels, after_folder(top)).push(fresh(child));
            &&& 0 <= index < nodes.last().folders.len()
            &&& follows(nodes.push(child), after, path.push(child.id))
            &&& rest(nodes.push(child), after, path.push(child.id)) == rest(nodes, levels, path)
        }),
{
    let node = nodes.last();
    let top = levels.last();
    let count = node.folders.len() as int;
    let at = count - top.folders.len();
    assert(top.folders[0] == at);
    let child = node.folders[at];
    let moved = with_top(levels, after_folder(top));
    let after = moved.push(fresh(child));
    let deeper = nodes.push(child);
    let longer = path.push(child.id);
    assert(top.folders.drop_first() =~= indexes_from(at + 1, count));
    assert(deeper.drop_last() == nodes);
    assert(after.drop_last() == moved);
    assert(longer.drop_last() == path);
    assert(moved.drop_last() == levels.drop_last());
    assert(counts(node, moved.last()));
    assert(follows(nodes, moved, path)) by {
        if nodes.len() > 1 {
            assert(moved[nodes.len() - 2] == levels[nodes.len() - 2]);
        }
    }
    assert(entered(node, moved.last(), child, child.id));
    assert(after[deeper.len() - 2] == moved.last());
    assert(deeper[deeper.len() - 2] == node);
    assert(counts(child, fresh(child)));
    assert(follows(deeper, after, longer));
    let inside = rest_of(child, longer, 0, 0);
    let beside = rest_inside(nodes, moved, path);
    assert(rest_inside(deeper, after, longer) == inside);
    assert(rest_inside(nodes, levels, path) == inside + beside);
    assert(rest(deeper, after, longer) == inside + rest(nodes, moved, path));
    if nodes.len() > 1 {
        let around = rest(nodes.drop_last(), levels.drop_last(), path.drop_last());
        assert(rest(nodes, moved, path) == beside + around);
        assert(inside + (beside + around) =~= (inside + beside) + around);
    }
}

/// Where the walk is over, nothing is still to come.
pub proof fn lemma_walk_done(nodes: Seq<FolderModel>, levels: Seq<Level>, path: Seq<u32>)
    requires
        follows(nodes, levels, path),
        step_of(settled(levels)) is Done,
    ensures
        rest(nodes, levels, path) == Seq::<Seq<u32>>::empty(),
{
    lemma_walk_settle(nodes, levels, path);
    lemma_settled(levels);
    assert(nodes.take(0) == Seq::<FolderModel>::empty());
}

} // verus!

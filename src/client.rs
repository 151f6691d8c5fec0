//! The client: its configuration and the registry of commands by full name.
use vstd::prelude::*;

use crate::command::{split_words, words_of, Command};
use crate::models::ParamType;

verus! {

/// The name a command is registered under: the client's prefix and the
/// command's name, or the name alone when it carries its own prefix.
pub open spec fn full_name(prefix: Seq<char>, custom_prefix: bool, name: Seq<char>) -> Seq<char> {
    if custom_prefix {
        name
    } else {
        prefix + name
    }
}

/// No two registered commands share a name.
pub open spec fn names_unique(cs: Seq<Command>) -> bool {
    forall|i: int, j: int|
        0 <= i < cs.len() && 0 <= j < cs.len() && i != j ==> #[trigger] cs[i].name@
            != #[trigger] cs[j].name@
}

/// Some command in `cs` is named `name`.
pub open spec fn has_name(cs: Seq<Command>, name: Seq<char>) -> bool {
    exists|i: int| 0 <= i < cs.len() && #[trigger] cs[i].name@ == name
}

/// `c` is `cmd` stored under the name `full`.
pub open spec fn stored_as(c: Command, cmd: Command, full: Seq<char>) -> bool {
    c.name@ == full && c.custom_prefix == cmd.custom_prefix && c.args == cmd.args
}

/// `after` is `before` with `cmd` registered under `full`: it replaces a
/// command of that name, or else is added at the end.
pub open spec fn registered(
    before: Seq<Command>,
    after: Seq<Command>,
    cmd: Command,
    full: Seq<char>,
) -> bool {
    if exists|i: int| 0 <= i < before.len() && #[trigger] before[i].name@ == full {
        exists|i: int|
            0 <= i < before.len() && #[trigger] before[i].name@ == full && after.len()
                == before.len() && stored_as(after[i], cmd, full) && forall|j: int|
                0 <= j < before.len() && j != i ==> #[trigger] after[j] == before[j]
    } else {
        &&& after.len() == before.len() + 1
        &&& stored_as(after[before.len() as int], cmd, full)
        &&& forall|j: int| 0 <= j < before.len() ==> #[trigger] after[j] == before[j]
    }
}

/// Registering keeps every name that was there, at its place, and adds the
/// registered one.
proof fn lemma_registered_keeps_names(
    before: Seq<Command>,
    after: Seq<Command>,
    cmd: Command,
    full: Seq<char>,
)
    requires
        registered(before, after, cmd, full),
    ensures
        after.len() >= before.len(),
        forall|i: int| 0 <= i < before.len() ==> #[trigger] after[i].name@ == before[i].name@,
        has_name(after, full),
{
    if exists|i: int| 0 <= i < before.len() && #[trigger] before[i].name@ == full {
        let i = choose|i: int|
            0 <= i < before.len() && #[trigger] before[i].name@ == full && after.len()
                == before.len() && stored_as(after[i], cmd, full) && forall|j: int|
                0 <= j < before.len() && j != i ==> #[trigger] after[j] == before[j];
        assert(after[i].name@ == full);
    } else {
        assert(after[before.len() as int].name@ == full);
    }
}

/// The registry as a map: each full name to the prefix flag and parameter
/// types of the command stored under it.
pub open spec fn table(cs: Seq<Command>) -> Map<Seq<char>, (bool, Seq<ParamType>)> {
    Map::new(
        |n: Seq<char>| has_name(cs, n),
        |n: Seq<char>|
            {
                let c = cs[choose|i: int| 0 <= i < cs.len() && #[trigger] cs[i].name@ == n];
                (c.custom_prefix, c.args@)
            },
    )
}

/// The registry after registering `cmds` in order on `t`: each one is entered
/// under its full name, a later one replacing an earlier one of that name.
pub open spec fn table_after(
    t: Map<Seq<char>, (bool, Seq<ParamType>)>,
    prefix: Seq<char>,
    cmds: Seq<Command>,
) -> Map<Seq<char>, (bool, Seq<ParamType>)>
    decreases cmds.len(),
{
    if cmds.len() == 0 {
        t
    } else {
        let c = cmds.last();
        table_after(t, prefix, cmds.drop_last()).insert(
            full_name(prefix, c.custom_prefix, c.name@),
            (c.custom_prefix, c.args@),
        )
    }
}

proof fn lemma_choose_unique(cs: Seq<Command>, i: int, n: Seq<char>)
    requires
        names_unique(cs),
        0 <= i < cs.len(),
        cs[i].name@ == n,
    ensures
        (choose|j: int| 0 <= j < cs.len() && #[trigger] cs[j].name@ == n) == i,
{
    let j = choose|j: int| 0 <= j < cs.len() && #[trigger] cs[j].name@ == n;
    assert(cs[j].name@ == n);
}

/// Registering enters the command under its full name and leaves every
/// other name as it was.
proof fn lemma_registered_table(
    before: Seq<Command>,
    after: Seq<Command>,
    cmd: Command,
    full: Seq<char>,
)
    requires
        names_unique(before),
        names_unique(after),
        registered(before, after, cmd, full),
    ensures
        table(after) == table(before).insert(full, (cmd.custom_prefix, cmd.args@)),
{
    lemma_registered_keeps_names(before, after, cmd, full);
    let want = table(before).insert(full, (cmd.custom_prefix, cmd.args@));
    let replaced = exists|i: int| 0 <= i < before.len() && #[trigger] before[i].name@ == full;
    let k: int = if replaced {
        choose|i: int|
            0 <= i < before.len() && #[trigger] before[i].name@ == full && after.len()
                == before.len() && stored_as(after[i], cmd, full) && forall|j: int|
                0 <= j < before.len() && j != i ==> #[trigger] after[j] == before[j]
    } else {
        before.len() as int
    };
    assert(stored_as(after[k], cmd, full));
    assert forall|j: int| 0 <= j < after.len() && j != k implies j < before.len() && #[trigger] after[j]
        == before[j] by {}
    assert forall|n: Seq<char>| #[trigger] table(after).contains_key(n) == want.contains_key(n) by {
        if has_name(after, n) && n != full {
            let j = choose|j: int| 0 <= j < after.len() && #[trigger] after[j].name@ == n;
            assert(before[j].name@ == n);
        }
        if has_name(before, n) {
            let j = choose|j: int| 0 <= j < before.len() && #[trigger] before[j].name@ == n;
            assert(after[j].name@ == n);
        }
    }
    assert forall|n: Seq<char>| #[trigger] table(after).contains_key(n) implies table(after)[n]
        == want[n] by {
        let j = choose|j: int| 0 <= j < after.len() && #[trigger] after[j].name@ == n;
        lemma_choose_unique(after, j, n);
        if n == full {
            lemma_choose_unique(after, k, n);
        } else {
            assert(j != k);
            assert(before[j].name@ == n);
            lemma_choose_unique(before, j, n);
        }
    }
    assert(table(after) =~= want);
}

pub struct Client {
    pub intents: u32,
    pub token: String,
    pub commands: Vec<Command>,
    pub prefix: String,
}

impl Client {
    pub open spec fn well_formed(&self) -> bool {
        names_unique(self.commands@)
    }

    pub fn new(token: &str, intents: u32, prefix: &str) -> (r: Client)
        ensures
            r.token@ == token@,
            r.intents == intents,
            r.prefix@ == prefix@,
            r.commands@.len() == 0,
            r.well_formed(),
    {
        Client {
            intents,
            token: token.to_owned(),
            commands: Vec::new(),
            prefix: prefix.to_owned(),
        }
    }

    pub fn token(&self) -> (r: &str)
        ensures
            r@ == self.token@,
    {
        self.token.as_str()
    }

    fn index_of(&self, name: &String) -> (r: Option<usize>)
        requires
            self.well_formed(),
        ensures
            r matches Some(i) ==> i < self.commands@.len() && self.commands@[i as int].name@
                == name@,
            r.is_none() ==> forall|i: int|
                0 <= i < self.commands@.len() ==> #[trigger] self.commands@[i].name@ != name@,
    {
        let mut i: usize = 0;
        while i < self.commands.len()
            invariant
                0 <= i <= self.commands@.len(),
                forall|j: int| 0 <= j < i ==> #[trigger] self.commands@[j].name@ != name@,
            decreases self.commands@.len() - i,
        {
            if self.commands[i].name.eq(name) {
                return Some(i);
            }
            i = i + 1;
        }
        None
    }

    /// The name a command is registered under.
    pub fn full_name_of(&self, cmd: &Command) -> (r: String)
        ensures
            r@ == full_name(self.prefix@, cmd.custom_prefix, cmd.name@),
    {
        if cmd.custom_prefix {
            cmd.name.clone()
        } else {
            self.prefix.clone().concat(cmd.name.as_str())
        }
    }

    /// Registers one command under its full name.
    pub fn register(&mut self, cmd: Command)
        requires
            old(self).well_formed(),
        ensures
            final(self).well_formed(),
            final(self).prefix == old(self).prefix,
            final(self).token == old(self).token,
            final(self).intents == old(self).intents,
            registered(
                old(self).commands@,
                final(self).commands@,
                cmd,
                full_name(old(self).prefix@, cmd.custom_prefix, cmd.name@),
            ),
            table(final(self).commands@) == table(old(self).commands@).insert(
                full_name(old(self).prefix@, cmd.custom_prefix, cmd.name@),
                (cmd.custom_prefix, cmd.args@),
            ),
    {
        let ghost full = full_name(self.prefix@, cmd.custom_prefix, cmd.name@);
        let ghost g = cmd;
        let name = self.full_name_of(&cmd);
        let stored = Command { name, custom_prefix: cmd.custom_prefix, args: cmd.args };
        match self.index_of(&stored.name) {
            Some(i) => {
                self.commands.set(i, stored);
                proof {
                    let before = old(self).commands@;
                    let after = self.commands@;
                    assert(before[i as int].name@ == full);
                    assert(forall|j: int|
                        0 <= j < before.len() && j != i ==> #[trigger] after[j] == before[j]);
                    assert forall|a: int, b: int|
                        0 <= a < after.len() && 0 <= b < after.len() && a != b implies #[trigger] after[a].name@
                            != #[trigger] after[b].name@ by {
                        if a != i && b != i {
                            assert(before[a].name@ != before[b].name@);
                        } else if a == i {
                            assert(before[b].name@ != before[a].name@);
                        } else {
                            assert(before[a].name@ != before[b].name@);
                        }
                    }
                }
            },
            None => {
                self.commands.push(stored);
                proof {
                    let before = old(self).commands@;
                    let after = self.commands@;
                    assert(forall|j: int| 0 <= j < before.len() ==> #[trigger] after[j] == before[j]);
                    assert forall|a: int, b: int|
                        0 <= a < after.len() && 0 <= b < after.len() && a != b implies #[trigger] after[a].name@
                            != #[trigger] after[b].name@ by {
                        if a < before.len() && b < before.len() {
                            assert(before[a].name@ != before[b].name@);
                        }
                    }
                }
            },
        }
        proof {
            lemma_registered_table(old(self).commands@, self.commands@, g, full);
        }
    }

    /// Registers commands in order; a later command replaces an earlier one
    /// of the same full name.
    pub fn register_commands(&mut self, commands: Vec<Command>)
        requires
            old(self).well_formed(),
        ensures
            final(self).well_formed(),
            final(self).prefix == old(self).prefix,
            final(self).token == old(self).token,
            final(self).intents == old(self).intents,
            table(final(self).commands@) == table_after(
                table(old(self).commands@),
                old(self).prefix@,
                commands@,
            ),
            forall|k: int|
                0 <= k < commands@.len() ==> has_name(
                    final(self).commands@,
                    #[trigger] full_name(
                        old(self).prefix@,
                        commands@[k].custom_prefix,
                        commands@[k].name@,
                    ),
                ),
    {
        let ghost all = commands@;
        let mut rest = commands;
        let n = rest.len();
        let mut k: usize = 0;
        while rest.len() > 0
            invariant
                0 <= k <= all.len(),
                all.len() == n,
                k + rest@.len() == all.len(),
                rest@ == all.subrange(k as int, all.len() as int),
                self.well_formed(),
                self.prefix == old(self).prefix,
                self.token == old(self).token,
                self.intents == old(self).intents,
                table(self.commands@) == table_after(
                    table(old(self).commands@),
                    old(self).prefix@,
                    all.subrange(0, k as int),
                ),
                forall|m: int|
                    0 <= m < k ==> has_name(
                        self.commands@,
                        #[trigger] full_name(old(self).prefix@, all[m].custom_prefix, all[m].name@),
                    ),
            decreases rest@.len(),
        {
            let ghost before = self.commands@;
            let cmd = rest.remove(0);
            assert(cmd == all[k as int]);
            self.register(cmd);
            proof {
                let after = self.commands@;
                let full = full_name(old(self).prefix@, cmd.custom_prefix, cmd.name@);
                lemma_registered_keeps_names(before, after, cmd, full);
                assert(all.subrange(0, k + 1).drop_last() =~= all.subrange(0, k as int));
                assert(all.subrange(0, k + 1).last() == cmd);
                assert forall|m: int| 0 <= m < k + 1 implies has_name(
                    after,
                    #[trigger] full_name(old(self).prefix@, all[m].custom_prefix, all[m].name@),
                ) by {
                    if m < k {
                        let x = full_name(old(self).prefix@, all[m].custom_prefix, all[m].name@);
                        assert(has_name(before, x));
                        let i = choose|i: int| 0 <= i < before.len() && #[trigger] before[i].name@ == x;
                        assert(after[i].name@ == before[i].name@);
                    }
                }
            }
            k = k + 1;
        }
        proof {
            assert(all.subrange(0, k as int) =~= all);
        }
    }

    /// The command that a message's content invokes: the one whose full name
    /// is the content's first word.
    pub fn find_command(&self, content: &str) -> (r: Option<usize>)
        requires
            self.well_formed(),
        ensures
            r matches Some(i) ==> i < self.commands@.len() && words_of(content@).len() > 0
                && self.commands@[i as int].name@ == words_of(content@)[0],
            r.is_none() ==> words_of(content@).len() == 0 || !has_name(
                self.commands@,
                words_of(content@)[0],
            ),
    {
        let words = split_words(content);
        if words.len() == 0 {
            return None;
        }
        proof {
            assert(words@.map_values(|w: String| w@)[0] == words@[0]@);
        }
        self.index_of(&words[0])
    }
}

} // verus!

//! The counters behind `REDISQL.STATISTICS`: for each command, how many
//! times it was invoked, how many times it succeeded and how many times it
//! failed.
use vstd::prelude::*;

verus! {

/// The counters in the order in which they are reported, with their labels.
pub struct StatsSerialized {
    pub data: Vec<(&'static str, usize)>,
}

pub struct Statistics {
    create_db: usize,
    create_db_ok: usize,
    create_db_err: usize,
    exec_command: usize,
    exec_ok: usize,
    exec_err: usize,
    query: usize,
    query_ok: usize,
    query_err: usize,
    query_into: usize,
    query_into_ok: usize,
    query_into_err: usize,
    create_statement: usize,
    create_statement_ok: usize,
    create_statement_err: usize,
    exec_statement: usize,
    exec_statement_ok: usize,
    exec_statement_err: usize,
    update_statement: usize,
    update_statement_ok: usize,
    update_statement_err: usize,
    delete_statement: usize,
    delete_statement_ok: usize,
    delete_statement_err: usize,
    query_statement: usize,
    query_statement_ok: usize,
    query_statement_err: usize,
    query_statement_into: usize,
    query_statement_into_ok: usize,
    query_statement_into_err: usize,
    copy: usize,
    copy_ok: usize,
    copy_err: usize,
}

/// The labels of the counters, in the order in which they are reported.
pub open spec fn stat_names() -> Seq<Seq<char>> {
    seq![
        "CREATE_DB"@,
        "CREATE_DB OK"@,
        "CREATE_DB ERR"@,
        "EXEC"@,
        "EXEC OK"@,
        "EXEC ERR"@,
        "QUERY"@,
        "QUERY OK"@,
        "QUERY ERR"@,
        "QUERY.INTO"@,
        "QUERY.INTO OK"@,
        "QUERY.INTO ERR"@,
        "CREATE_STATEMENT"@,
        "CREATE_STATEMENT OK"@,
        "CREATE_STATEMENT ERR"@,
        "EXEC_STATEMENT"@,
        "EXEC_STATEMENT OK"@,
        "EXEC_STATEMENT ERR"@,
        "UPDATE_STATEMENT"@,
        "UPDATE_STATEMENT OK"@,
        "UPDATE_STATEMENT ERR"@,
        "DELETE_STATEMENT"@,
        "DELETE_STATEMENT OK"@,
        "DELETE_STATEMENT ERR"@,
        "QUERY_STATEMENT"@,
        "QUERY_STATEMENT OK"@,
        "QUERY_STATEMENT ERR"@,
        "QUERY_STATEMENT.INTO"@,
        "QUERY_STATEMENT.INTO OK"@,
        "QUERY_STATEMENT.INTO ERR"@,
        "COPY"@,
        "COPY OK"@,
        "COPY ERR"@,
    ]
}

/// A counter after one more event; counters wrap around like `fetch_add`.
pub open spec fn bump(x: usize) -> usize {
    if x == usize::MAX {
        0
    } else {
        (x + 1) as usize
    }
}

fn bumped(x: usize) -> (y: usize)
    ensures
        y == bump(x),
{
    if x == usize::MAX {
        0
    } else {
        x + 1
    }
}

impl View for Statistics {
    /// The counters, in the order in which they are reported.
    type V = Seq<usize>;

    closed spec fn view(&self) -> Seq<usize> {
        seq![
            self.create_db,
            self.create_db_ok,
            self.create_db_err,
            self.exec_command,
            self.exec_ok,
            self.exec_err,
            self.query,
            self.query_ok,
            self.query_err,
            self.query_into,
            self.query_into_ok,
            self.query_into_err,
            self.create_statement,
            self.create_statement_ok,
            self.create_statement_err,
            self.exec_statement,
            self.exec_statement_ok,
            self.exec_statement_err,
            self.update_statement,
            self.update_statement_ok,
            self.update_statement_err,
            self.delete_statement,
            self.delete_statement_ok,
            self.delete_statement_err,
            self.query_statement,
            self.query_statement_ok,
            self.query_statement_err,
            self.query_statement_into,
            self.query_statement_into_ok,
            self.query_statement_into_err,
            self.copy,
            self.copy_ok,
            self.copy_err,
        ]
    }
}

impl Statistics {
    /// All counters at zero.
    pub fn new() -> (s: Self)
        ensures
            s@ == Seq::new(33, |k: int| 0usize),
    {
        let s = Statistics {
            create_db: 0,
            create_db_ok: 0,
            create_db_err: 0,
            exec_command: 0,
            exec_ok: 0,
            exec_err: 0,
            query: 0,
            query_ok: 0,
            query_err: 0,
            query_into: 0,
            query_into_ok: 0,
            query_into_err: 0,
            create_statement: 0,
            create_statement_ok: 0,
            create_statement_err: 0,
            exec_statement: 0,
            exec_statement_ok: 0,
            exec_statement_err: 0,
            update_statement: 0,
            update_statement_ok: 0,
            update_statement_err: 0,
            delete_statement: 0,
            delete_statement_ok: 0,
            delete_statement_err: 0,
            query_statement: 0,
            query_statement_ok: 0,
            query_statement_err: 0,
            query_statement_into: 0,
            query_statement_into_ok: 0,
            query_statement_into_err: 0,
            copy: 0,
            copy_ok: 0,
            copy_err: 0,
        };
        assert(s@ =~= Seq::new(33, |k: int| 0usize));
        s
    }

    /// There are 33 counters, one per label of `stat_names`.
    pub proof fn lemma_counters(&self)
        ensures
            self@.len() == 33,
            stat_names().len() == 33,
    {
    }

    /// Counts one more event on counter `i`.
    pub fn bump_counter(&mut self, i: usize)
        requires
            i < 33,
        ensures
            final(self)@ == old(self)@.update(i as int, bump(old(self)@[i as int])),
    {
        if i == 0 {
            self.create_db();
        } else if i == 1 {
            self.create_db_ok();
        } else if i == 2 {
            self.create_db_err();
        } else if i == 3 {
            self.exec();
        } else if i == 4 {
            self.exec_ok();
        } else if i == 5 {
            self.exec_err();
        } else if i == 6 {
            self.query();
        } else if i == 7 {
            self.query_ok();
        } else if i == 8 {
            self.query_err();
        } else if i == 9 {
            self.query_into();
        } else if i == 10 {
            self.query_into_ok();
        } else if i == 11 {
            self.query_into_err();
        } else if i == 12 {
            self.create_statement();
        } else if i == 13 {
            self.create_statement_ok();
        } else if i == 14 {
            self.create_statement_err();
        } else if i == 15 {
            self.exec_statement();
        } else if i == 16 {
            self.exec_statement_ok();
        } else if i == 17 {
            self.exec_statement_err();
        } else if i == 18 {
            self.update_statement();
        } else if i == 19 {
            self.update_statement_ok();
        } else if i == 20 {
            self.update_statement_err();
        } else if i == 21 {
            self.delete_statement();
        } else if i == 22 {
            self.delete_statement_ok();
        } else if i == 23 {
            self.delete_statement_err();
        } else if i == 24 {
            self.query_statement();
        } else if i == 25 {
            self.query_statement_ok();
        } else if i == 26 {
            self.query_statement_err();
        } else if i == 27 {
            self.query_statement_into();
        } else if i == 28 {
            self.query_statement_into_ok();
        } else if i == 29 {
            self.query_statement_into_err();
        } else if i == 30 {
            self.copy();
        } else if i == 31 {
            self.copy_ok();
        } else if i == 32 {
            self.copy_err();
        }
    }

    pub fn create_db(&mut self)
        ensures
            final(self)@ == old(self)@.update(0, bump(old(self)@[0])),
    {
        self.create_db = bumped(self.create_db);
        assert(self@ =~= old(self)@.update(0, bump(old(self)@[0])));
    }

    pub fn create_db_ok(&mut self)
        ensures
            final(self)@ == old(self)@.update(1, bump(old(self)@[1])),
    {
        self.create_db_ok = bumped(self.create_db_ok);
        assert(self@ =~= old(self)@.update(1, bump(old(self)@[1])));
    }

    pub fn create_db_err(&mut self)
        ensures
            final(self)@ == old(self)@.update(2, bump(old(self)@[2])),
    {
        self.create_db_err = bumped(self.create_db_err);
        assert(self@ =~= old(self)@.update(2, bump(old(self)@[2])));
    }

    pub fn exec(&mut self)
        ensures
            final(self)@ == old(self)@.update(3, bump(old(self)@[3])),
    {
        self.exec_command = bumped(self.exec_command);
        assert(self@ =~= old(self)@.update(3, bump(old(self)@[3])));
    }

    pub fn exec_ok(&mut self)
        ensures
            final(self)@ == old(self)@.update(4, bump(old(self)@[4])),
    {
        self.exec_ok = bumped(self.exec_ok);
        assert(self@ =~= old(self)@.update(4, bump(old(self)@[4])));
    }

    pub fn exec_err(&mut self)
        ensures
            final(self)@ == old(self)@.update(5, bump(old(self)@[5])),
    {
        self.exec_err = bumped(self.exec_err);
        assert(self@ =~= old(self)@.update(5, bump(old(self)@[5])));
    }

    pub fn query(&mut self)
        ensures
            final(self)@ == old(self)@.update(6, bump(old(self)@[6])),
    {
        self.query = bumped(self.query);
        assert(self@ =~= old(self)@.update(6, bump(old(self)@[6])));
    }

    pub fn query_ok(&mut self)
        ensures
            final(self)@ == old(self)@.update(7, bump(old(self)@[7])),
    {
        self.query_ok = bumped(self.query_ok);
        assert(self@ =~= old(self)@.update(7, bump(old(self)@[7])));
    }

    pub fn query_err(&mut self)
        ensures
            final(self)@ == old(self)@.update(8, bump(old(self)@[8])),
    {
        self.query_err = bumped(self.query_err);
        assert(self@ =~= old(self)@.update(8, bump(old(self)@[8])));
    }

    pub fn query_into(&mut self)
        ensures
            final(self)@ == old(self)@.update(9, bump(old(self)@[9])),
    {
        self.query_into = bumped(self.query_into);
        assert(self@ =~= old(self)@.update(9, bump(old(self)@[9])));
    }

    pub fn query_into_ok(&mut self)
        ensures
            final(self)@ == old(self)@.update(10, bump(old(self)@[10])),
    {
        self.query_into_ok = bumped(self.query_into_ok);
        assert(self@ =~= old(self)@.update(10, bump(old(self)@[10])));
    }

    pub fn query_into_err(&mut self)
        ensures
            final(self)@ == old(self)@.update(11, bump(old(self)@[11])),
    {
        self.query_into_err = bumped(self.query_into_err);
        assert(self@ =~= old(self)@.update(11, bump(old(self)@[11])));
    }

    pub fn create_statement(&mut self)
        ensures
            final(self)@ == old(self)@.update(12, bump(old(self)@[12])),
    {
        self.create_statement = bumped(self.create_statement);
        assert(self@ =~= old(self)@.update(12, bump(old(self)@[12])));
    }

    pub fn create_statement_ok(&mut self)
        ensures
            final(self)@ == old(self)@.update(13, bump(old(self)@[13])),
    {
        self.create_statement_ok = bumped(self.create_statement_ok);
        assert(self@ =~= old(self)@.update(13, bump(old(self)@[13])));
    }

    pub fn create_statement_err(&mut self)
        ensures
            final(self)@ == old(self)@.update(14, bump(old(self)@[14])),
    {
        self.create_statement_err = bumped(self.create_statement_err);
        assert(self@ =~= old(self)@.update(14, bump(old(self)@[14])));
    }

    pub fn exec_statement(&mut self)
        ensures
            final(self)@ == old(self)@.update(15, bump(old(self)@[15])),
    {
        self.exec_statement = bumped(self.exec_statement);
        assert(self@ =~= old(self)@.update(15, bump(old(self)@[15])));
    }

    pub fn exec_statement_ok(&mut self)
        ensures
            final(self)@ == old(self)@.update(16, bump(old(self)@[16])),
    {
        self.exec_statement_ok = bumped(self.exec_statement_ok);
        assert(self@ =~= old(self)@.update(16, bump(old(self)@[16])));
    }

    pub fn exec_statement_err(&mut self)
        ensures
            final(self)@ == old(self)@.update(17, bump(old(self)@[17])),
    {
        self.exec_statement_err = bumped(self.exec_statement_err);
        assert(self@ =~= old(self)@.update(17, bump(old(self)@[17])));
    }

    pub fn update_statement(&mut self)
        ensures
            final(self)@ == old(self)@.update(18, bump(old(self)@[18])),
    {
        self.update_statement = bumped(self.update_statement);
        assert(self@ =~= old(self)@.update(18, bump(old(self)@[18])));
    }

    pub fn update_statement_ok(&mut self)
        ensures
            final(self)@ == old(self)@.update(19, bump(old(self)@[19])),
    {
        self.update_statement_ok = bumped(self.update_statement_ok);
        assert(self@ =~= old(self)@.update(19, bump(old(self)@[19])));
    }

    pub fn update_statement_err(&mut self)
        ensures
            final(self)@ == old(self)@.update(20, bump(old(self)@[20])),
    {
        self.update_statement_err = bumped(self.update_statement_err);
        assert(self@ =~= old(self)@.update(20, bump(old(self)@[20])));
    }

    pub fn delete_statement(&mut self)
        ensures
            final(self)@ == old(self)@.update(21, bump(old(self)@[21])),
    {
        self.delete_statement = bumped(self.delete_statement);
        assert(self@ =~= old(self)@.update(21, bump(old(self)@[21])));
    }

    pub fn delete_statement_ok(&mut self)
        ensures
            final(self)@ == old(self)@.update(22, bump(old(self)@[22])),
    {
        self.delete_statement_ok = bumped(self.delete_statement_ok);
        assert(self@ =~= old(self)@.update(22, bump(old(self)@[22])));
    }

    pub fn delete_statement_err(&mut self)
        ensures
            final(self)@ == old(self)@.update(23, bump(old(self)@[23])),
    {
        self.delete_statement_err = bumped(self.delete_statement_err);
        assert(self@ =~= old(self)@.update(23, bump(old(self)@[23])));
    }

    pub fn query_statement(&mut self)
        ensures
            final(self)@ == old(self)@.update(24, bump(old(self)@[24])),
    {
        self.query_statement = bumped(self.query_statement);
        assert(self@ =~= old(self)@.update(24, bump(old(self)@[24])));
    }

    pub fn query_statement_ok(&mut self)
        ensures
            final(self)@ == old(self)@.update(25, bump(old(self)@[25])),
    {
        self.query_statement_ok = bumped(self.query_statement_ok);
        assert(self@ =~= old(self)@.update(25, bump(old(self)@[25])));
    }

    pub fn query_statement_err(&mut self)
        ensures
            final(self)@ == old(self)@.update(26, bump(old(self)@[26])),
    {
        self.query_statement_err = bumped(self.query_statement_err);
        assert(self@ =~= old(self)@.update(26, bump(old(self)@[26])));
    }

    pub fn query_statement_into(&mut self)
        ensures
            final(self)@ == old(self)@.update(27, bump(old(self)@[27])),
    {
        self.query_statement_into = bumped(self.query_statement_into);
        assert(self@ =~= old(self)@.update(27, bump(old(self)@[27])));
    }

    pub fn query_statement_into_ok(&mut self)
        ensures
            final(self)@ == old(self)@.update(28, bump(old(self)@[28])),
    {
        self.query_statement_into_ok = bumped(self.query_statement_into_ok);
        assert(self@ =~= old(self)@.update(28, bump(old(self)@[28])));
    }

    pub fn query_statement_into_err(&mut self)
        ensures
            final(self)@ == old(self)@.update(29, bump(old(self)@[29])),
    {
        self.query_statement_into_err = bumped(self.query_statement_into_err);
        assert(self@ =~= old(self)@.update(29, bump(old(self)@[29])));
    }

    pub fn copy(&mut self)
        ensures
            final(self)@ == old(self)@.update(30, bump(old(self)@[30])),
    {
        self.copy = bumped(self.copy);
        assert(self@ =~= old(self)@.update(30, bump(old(self)@[30])));
    }

    pub fn copy_ok(&mut self)
        ensures
            final(self)@ == old(self)@.update(31, bump(old(self)@[31])),
    {
        self.copy_ok = bumped(self.copy_ok);
        assert(self@ =~= old(self)@.update(31, bump(old(self)@[31])));
    }

    pub fn copy_err(&mut self)
        ensures
            final(self)@ == old(self)@.update(32, bump(old(self)@[32])),
    {
        self.copy_err = bumped(self.copy_err);
        assert(self@ =~= old(self)@.update(32, bump(old(self)@[32])));
    }

    /// The counters with their labels, in the order in which they are
    /// reported.
    pub fn values(&self) -> (r: StatsSerialized)
        ensures
            r.data@.len() == 33,
            forall|k: int| 0 <= k < 33 ==> (#[trigger] r.data@[k]).0@ == stat_names()[k] && r.data@[k].1 == self@[k],
    {
        let mut stats: Vec<(&'static str, usize)> = Vec::new();
        stats.push(("CREATE_DB", self.create_db));
        stats.push(("CREATE_DB OK", self.create_db_ok));
        stats.push(("CREATE_DB ERR", self.create_db_err));
        stats.push(("EXEC", self.exec_command));
        stats.push(("EXEC OK", self.exec_ok));
        stats.push(("EXEC ERR", self.exec_err));
        stats.push(("QUERY", self.query));
        stats.push(("QUERY OK", self.query_ok));
        stats.push(("QUERY ERR", self.query_err));
        stats.push(("QUERY.INTO", self.query_into));
        stats.push(("QUERY.INTO OK", self.query_into_ok));
        stats.push(("QUERY.INTO ERR", self.query_into_err));
        stats.push(("CREATE_STATEMENT", self.create_statement));
        stats.push(("CREATE_STATEMENT OK", self.create_statement_ok));
        stats.push(("CREATE_STATEMENT ERR", self.create_statement_err));
        stats.push(("EXEC_STATEMENT", self.exec_statement));
        stats.push(("EXEC_STATEMENT OK", self.exec_statement_ok));
        stats.push(("EXEC_STATEMENT ERR", self.exec_statement_err));
        stats.push(("UPDATE_STATEMENT", self.update_statement));
        stats.push(("UPDATE_STATEMENT OK", self.update_statement_ok));
        stats.push(("UPDATE_STATEMENT ERR", self.update_statement_err));
        stats.push(("DELETE_STATEMENT", self.delete_statement));
        stats.push(("DELETE_STATEMENT OK", self.delete_statement_ok));
        stats.push(("DELETE_STATEMENT ERR", self.delete_statement_err));
        stats.push(("QUERY_STATEMENT", self.query_statement));
        stats.push(("QUERY_STATEMENT OK", self.query_statement_ok));
        stats.push(("QUERY_STATEMENT ERR", self.query_statement_err));
        stats.push(("QUERY_STATEMENT.INTO", self.query_statement_into));
        stats.push(("QUERY_STATEMENT.INTO OK", self.query_statement_into_ok));
        stats.push(("QUERY_STATEMENT.INTO ERR", self.query_statement_into_err));
        stats.push(("COPY", self.copy));
        stats.push(("COPY OK", self.copy_ok));
        stats.push(("COPY ERR", self.copy_err));
        StatsSerialized { data: stats }
    }
}

} // verus!

//! Daily vote tallies for a bot.

use vstd::prelude::*;

verus! {

/// What chrono's calendar rendering of a day number looks like: the
/// ISO-8601 date of that day of the common era.
pub uninterp spec fn spec_date_string(days: int) -> Seq<char>;

/// Relies on chrono::NaiveDate::from_num_days_from_ce_opt and its Display
/// impl: renders the day number as a calendar date. The result depends on
/// the day number alone; the range below keeps the day well inside
/// chrono's supported calendar.
#[verifier::external_body]
pub(crate) fn date_to_string(days: i32) -> (r: String)
    requires
        1 <= days <= 3000000,
    ensures
        r@ == spec_date_string(days as int),
{
    match chrono::NaiveDate::from_num_days_from_ce_opt(days) {
        Some(date) => date.to_string(),
        None => String::new(),
    }
}

/// One day's vote count for one bot. The day is counted in days of the
/// common era, standing in for the SQL date.
#[derive(Debug)]
pub struct BotVote {
    pub bot_id: String,
    pub date: i32,
    pub votes: i32,
}

impl Clone for BotVote {
    fn clone(&self) -> (r: Self)
        ensures
            r == *self,
    {
        BotVote { bot_id: self.bot_id.clone(), date: self.date, votes: self.votes }
    }
}

/// The position of the first vote row of `bot_id` on day `date`, if any.
pub open spec fn spec_vote_idx(votes: Seq<BotVote>, bot_id: Seq<char>, date: i32) -> Option<int>
    decreases votes.len(),
{
    if votes.len() == 0 {
        None
    } else if votes[0].bot_id@ == bot_id && votes[0].date == date {
        Some(0)
    } else {
        match spec_vote_idx(votes.drop_first(), bot_id, date) {
            None => None,
            Some(i) => Some(i + 1),
        }
    }
}

proof fn lemma_vote_idx_hit(votes: Seq<BotVote>, bot_id: Seq<char>, date: i32, i: int)
    requires
        0 <= i < votes.len(),
        forall|j: int|
            0 <= j < i ==> !((#[trigger] votes[j]).bot_id@ == bot_id && votes[j].date == date),
        votes[i].bot_id@ == bot_id && votes[i].date == date,
    ensures
        spec_vote_idx(votes, bot_id, date) == Some(i),
    decreases i,
{
    if i > 0 {
        assert(forall|j: int| 0 <= j < i - 1 ==> #[trigger] votes.drop_first()[j] == votes[j + 1]);
        lemma_vote_idx_hit(votes.drop_first(), bot_id, date, i - 1);
        assert(votes.drop_first()[i - 1] == votes[i]);
    }
}

proof fn lemma_vote_idx_miss(votes: Seq<BotVote>, bot_id: Seq<char>, date: i32)
    requires
        forall|j: int|
            0 <= j < votes.len() ==> !((#[trigger] votes[j]).bot_id@ == bot_id && votes[j].date
                == date),
    ensures
        spec_vote_idx(votes, bot_id, date) is None,
    decreases votes.len(),
{
    if votes.len() > 0 {
        assert(forall|j: int|
            0 <= j < votes.drop_first().len() ==> #[trigger] votes.drop_first()[j] == votes[j
                + 1]);
        lemma_vote_idx_miss(votes.drop_first(), bot_id, date);
    }
}

/// The columns of a fresh vote row, before it is written.
#[derive(Debug)]
pub struct NewBotVote<'a> {
    pub bot_id: &'a str,
}

impl<'a> NewBotVote<'a> {
    pub fn new(bot_id: &'a str) -> (r: NewBotVote<'a>)
        ensures
            r.bot_id@ == bot_id@,
    {
        Self { bot_id }
    }

    /// Records one vote on day `date`: the bot's first vote of the day
    /// inserts a row at one, a later vote increments the existing row —
    /// the upsert the vote route performs.
    pub fn create(&self, store: &mut crate::store::Store, date: i32) -> (r: Result<
        BotVote,
        crate::store::QueryError,
    >)
        requires
            match spec_vote_idx(old(store).votes@, self.bot_id@, date) {
                Some(i) => old(store).votes@[i].votes < i32::MAX,
                None => true,
            },
        ensures
            final(store).users@ == old(store).users@,
            final(store).tokens@ == old(store).tokens@,
            final(store).read_only == old(store).read_only,
            final(store).next_token_id == old(store).next_token_id,
            match r {
                Ok(v) => {
                    &&& !old(store).read_only
                    &&& v.bot_id@ == self.bot_id@
                    &&& v.date == date
                    &&& match spec_vote_idx(old(store).votes@, self.bot_id@, date) {
                        None => v.votes == 1 && final(store).votes@ == old(store).votes@.push(v),
                        Some(i) => v.votes == old(store).votes@[i].votes + 1
                            && final(store).votes@ == old(store).votes@.update(i, v),
                    }
                },
                Err(e) => e == crate::store::QueryError::ReadOnly && old(store).read_only
                    && *final(store) == *old(store),
            },
    {
        if store.read_only {
            return Err(crate::store::QueryError::ReadOnly);
        }
        let n = store.votes.len();
        let mut i: usize = 0;
        while i < n
            invariant
                i <= n,
                n == store.votes@.len(),
                *store == *old(store),
                !old(store).read_only,
                match spec_vote_idx(old(store).votes@, self.bot_id@, date) {
                    Some(k) => old(store).votes@[k].votes < i32::MAX,
                    None => true,
                },
                forall|j: int|
                    0 <= j < i ==> !((#[trigger] store.votes@[j]).bot_id@ == self.bot_id@
                        && store.votes@[j].date == date),
            decreases n - i,
        {
            if store.votes[i].date == date && crate::strutil::str_eq(
                store.votes[i].bot_id.as_str(),
                self.bot_id,
            ) {
                proof {
                    lemma_vote_idx_hit(store.votes@, self.bot_id@, date, i as int);
                }
                let row = vstd::std_specs::vec::vec_index_mut(&mut store.votes, i);
                row.votes = row.votes + 1;
                return Ok(row.clone());
            }
            i = i + 1;
        }
        proof {
            lemma_vote_idx_miss(store.votes@, self.bot_id@, date);
        }
        let fresh = BotVote { bot_id: self.bot_id.to_owned(), date, votes: 1 };
        let copy = fresh.clone();
        store.votes.push(fresh);
        Ok(copy)
    }
}

} // verus!

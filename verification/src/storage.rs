//! How episodes are laid out in the `episodes` table.

use vstd::multiset::Multiset;
use vstd::prelude::*;
use vstd::string::*;

use crate::feed::Episode;
use crate::ids::{parse_uuid, uuid_parse_spec, uuid_text, uuid_to_string};
use crate::timestamp::in_four_digit_years;
use crate::timestamp::{chrono_rfc3339_parse, chrono_rfc3339_text, Timestamp};

verus! {

/// One row of the `episodes` table, column by column.
#[derive(Clone, Debug)]
pub struct EpisodeRow {
    pub id: String,
    pub title: String,
    pub source_url: String,
    pub audio_path: String,
    pub audio_url: String,
    pub duration_secs: Option<i64>,
    pub added_at: String,
}

/// Why a stored row does not describe an episode.
#[derive(Clone, Copy, Debug, PartialEq, Eq)]
pub enum RowError {
    /// The `id` column is not a UUID.
    BadId,
    /// The `added_at` column is not an RFC 3339 moment.
    BadTimestamp,
}

/// The duration column for a duration in seconds.
pub open spec fn duration_column(d: Option<u32>) -> Option<i64> {
    match d {
        Some(s) => Some(s as i64),
        None => None,
    }
}

/// The duration in seconds read back from the column (truncated to 32 bits).
pub open spec fn duration_from_column(d: Option<i64>) -> Option<u32> {
    match d {
        Some(s) => Some(s as u32),
        None => None,
    }
}

/// The row under which `e` is stored.
pub fn episode_to_row(e: &Episode) -> (row: EpisodeRow)
    ensures
        row.id@ == uuid_text(e.id),
        uuid_parse_spec(row.id@) == Some(e.id),
        row.title@ == e.title@,
        row.source_url@ == e.source_url@,
        row.audio_path@ == e.audio_path@,
        row.audio_url@ == e.audio_url@,
        row.duration_secs == duration_column(e.duration_secs),
        row.added_at@ == chrono_rfc3339_text(e.added_at.spec_secs(), e.added_at.spec_nanos()),
        in_four_digit_years(e.added_at.spec_secs()) ==> chrono_rfc3339_parse(row.added_at@) == Some(
            (e.added_at.spec_secs(), e.added_at.spec_nanos()),
        ),
{
    EpisodeRow {
        id: uuid_to_string(e.id),
        title: e.title.clone(),
        source_url: e.source_url.clone(),
        audio_path: e.audio_path.clone(),
        audio_url: e.audio_url.clone(),
        duration_secs: match e.duration_secs {
            Some(d) => Some(d as i64),
            None => None,
        },
        added_at: e.added_at.to_rfc3339(),
    }
}

/// The episode a row describes, given what its `id` and `added_at` columns
/// parse to: a bad `id` is reported before a bad `added_at`.
pub fn episode_from_parts(row: &EpisodeRow, id: Option<u128>, added_at: Option<Timestamp>) -> (r:
    Result<Episode, RowError>)
    ensures
        id is None ==> r == Err::<Episode, RowError>(RowError::BadId),
        id is Some && added_at is None ==> r == Err::<Episode, RowError>(RowError::BadTimestamp),
        id is Some && added_at is Some ==> (r matches Ok(e) && e.id == id->0 && e.added_at
            == added_at->0 && e.title@ == row.title@ && e.source_url@ == row.source_url@
            && e.audio_path@ == row.audio_path@ && e.audio_url@ == row.audio_url@
            && e.duration_secs == duration_from_column(row.duration_secs)),
{
    let id = match id {
        Some(id) => id,
        None => {
            return Err(RowError::BadId);
        },
    };
    let added_at = match added_at {
        Some(t) => t,
        None => {
            return Err(RowError::BadTimestamp);
        },
    };
    Ok(
        Episode {
            id,
            title: row.title.clone(),
            source_url: row.source_url.clone(),
            audio_path: row.audio_path.clone(),
            audio_url: row.audio_url.clone(),
            duration_secs: match row.duration_secs {
                Some(d) => Some(d as u32),
                None => None,
            },
            added_at,
        },
    )
}

/// Whether `e` is the episode that `row` describes.
pub open spec fn row_describes(row: EpisodeRow, e: Episode) -> bool {
    &&& uuid_parse_spec(row.id@) == Some(e.id)
    &&& chrono_rfc3339_parse(row.added_at@) == Some(
        (e.added_at.spec_secs(), e.added_at.spec_nanos()),
    )
    &&& e.title@ == row.title@
    &&& e.source_url@ == row.source_url@
    &&& e.audio_path@ == row.audio_path@
    &&& e.audio_url@ == row.audio_url@
    &&& e.duration_secs == duration_from_column(row.duration_secs)
}

/// The error, if any, in reading `row`.
pub open spec fn row_error(row: EpisodeRow) -> Option<RowError> {
    if uuid_parse_spec(row.id@) is None {
        Some(RowError::BadId)
    } else if chrono_rfc3339_parse(row.added_at@) is None {
        Some(RowError::BadTimestamp)
    } else {
        None
    }
}

/// Reads the episode stored in `row`.
pub fn episode_from_row(row: &EpisodeRow) -> (r: Result<Episode, RowError>)
    ensures
        match row_error(*row) {
            Some(err) => r == Err::<Episode, RowError>(err),
            None => (r matches Ok(e) && row_describes(*row, e)),
        },
{
    let id = parse_uuid(row.id.as_str());
    let added_at = Timestamp::parse_rfc3339(row.added_at.as_str());
    episode_from_parts(row, id, added_at)
}

/// Reads every row, in order; the first row that cannot be read makes the
/// whole listing fail with its error.
pub fn episodes_from_rows(rows: Vec<EpisodeRow>) -> (r: Result<Vec<Episode>, RowError>)
    ensures
        match r {
            Ok(v) => v@.len() == rows@.len() && forall|i: int|
                0 <= i < rows@.len() ==> row_error(rows@[i]) is None && row_describes(
                    #[trigger] rows@[i],
                    v@[i],
                ),
            Err(err) => exists|i: int|
                0 <= i < rows@.len() && row_error(#[trigger] rows@[i]) == Some(err) && forall|j: int|
                    0 <= j < i ==> row_error(#[trigger] rows@[j]) is None,
        },
{
    let mut episodes: Vec<Episode> = Vec::new();
    let n = rows.len();
    let mut i: usize = 0;
    while i < n
        invariant
            n == rows@.len(),
            i <= n,
            episodes@.len() == i,
            forall|j: int|
                0 <= j < i ==> row_error(rows@[j]) is None && row_describes(
                    #[trigger] rows@[j],
                    episodes@[j],
                ),
        decreases n - i,
    {
        match episode_from_row(&rows[i]) {
            Ok(e) => {
                episodes.push(e);
            },
            Err(err) => {
                return Err(err);
            },
        }
        i = i + 1;
    }
    Ok(episodes)
}

/// Reading back the row under which an episode was stored gives the episode,
/// for every episode added in the years 0 through 9999.
pub proof fn lemma_row_round_trip(e: Episode, row: EpisodeRow)
    requires
        row.id@ == uuid_text(e.id),
        uuid_parse_spec(row.id@) == Some(e.id),
        row.title@ == e.title@,
        row.source_url@ == e.source_url@,
        row.audio_path@ == e.audio_path@,
        row.audio_url@ == e.audio_url@,
        row.duration_secs == duration_column(e.duration_secs),
        row.added_at@ == chrono_rfc3339_text(e.added_at.spec_secs(), e.added_at.spec_nanos()),
        in_four_digit_years(e.added_at.spec_secs()) ==> chrono_rfc3339_parse(row.added_at@) == Some(
            (e.added_at.spec_secs(), e.added_at.spec_nanos()),
        ),
        in_four_digit_years(e.added_at.spec_secs()),
    ensures
        row_error(row) is None,
        row_describes(row, e),
{
}

/// One row of the `users` table.
#[derive(Clone, Debug)]
pub struct UserRow {
    pub id: String,
    pub username: String,
    pub created_at: String,
}

/// One row of the `passkey_credentials` table.
#[derive(Clone, Debug)]
pub struct CredentialRow {
    pub id: String,
    pub user_id: String,
    pub username: String,
    pub credential_json: String,
    pub created_at: String,
}

/// The user id stored in an `id` column of the `users` table.
pub fn user_id_from_column(id: &str) -> (r: Option<u128>)
    ensures
        r == uuid_parse_spec(id@),
{
    parse_uuid(id)
}

/// The row recording a new user `username` under `id`, created at `created_at`.
pub fn new_user_row(id: u128, username: &str, created_at: Timestamp) -> (row: UserRow)
    ensures
        row.id@ == uuid_text(id),
        uuid_parse_spec(row.id@) == Some(id),
        row.username@ == username@,
        row.created_at@ == chrono_rfc3339_text(created_at.spec_secs(), created_at.spec_nanos()),
{
    UserRow {
        id: uuid_to_string(id),
        username: String::from_str(username),
        created_at: created_at.to_rfc3339(),
    }
}

/// The row recording the passkey `credential_json` of user `user_id`
/// (`username`) under `id`, saved at `created_at`.
pub fn new_credential_row(
    id: u128,
    user_id: u128,
    username: &str,
    credential_json: &str,
    created_at: Timestamp,
) -> (row: CredentialRow)
    ensures
        row.id@ == uuid_text(id),
        row.user_id@ == uuid_text(user_id),
        row.username@ == username@,
        row.credential_json@ == credential_json@,
        row.created_at@ == chrono_rfc3339_text(created_at.spec_secs(), created_at.spec_nanos()),
{
    CredentialRow {
        id: uuid_to_string(id),
        user_id: uuid_to_string(user_id),
        username: String::from_str(username),
        credential_json: String::from_str(credential_json),
        created_at: created_at.to_rfc3339(),
    }
}

/// Whether `a` was added no earlier than `b`.
pub open spec fn added_no_earlier(a: Episode, b: Episode) -> bool {
    a.added_at.spec_secs() > b.added_at.spec_secs() || (a.added_at.spec_secs()
        == b.added_at.spec_secs() && a.added_at.spec_nanos() >= b.added_at.spec_nanos())
}

/// Whether `s` lists its episodes newest first.
pub open spec fn newest_first_order(s: Seq<Episode>) -> bool {
    forall|i: int, j: int| 0 <= i < j < s.len() ==> added_no_earlier(#[trigger] s[i], #[trigger] s[j])
}

/// The same episodes, newest first.
pub fn newest_first(episodes: Vec<Episode>) -> (r: Vec<Episode>)
    ensures
        r@.to_multiset() == episodes@.to_multiset(),
        newest_first_order(r@),
{
    broadcast use vstd::seq_lib::group_to_multiset_ensures;

    let mut rest = episodes;
    let mut out: Vec<Episode> = Vec::new();
    assert(out@.to_multiset() =~= Multiset::<Episode>::empty());
    assert(out@.to_multiset().add(rest@.to_multiset()) =~= episodes@.to_multiset());
    while rest.len() > 0
        invariant
            out@.to_multiset().add(rest@.to_multiset()) == episodes@.to_multiset(),
            newest_first_order(out@),
            forall|i: int, j: int|
                0 <= i < out@.len() && 0 <= j < rest@.len() ==> added_no_earlier(
                    #[trigger] out@[i],
                    #[trigger] rest@[j],
                ),
        decreases rest.len(),
    {
        let mut best: usize = 0;
        let mut k: usize = 1;
        while k < rest.len()
            invariant
                0 <= best < k <= rest@.len(),
                forall|j: int| 0 <= j < k ==> added_no_earlier(rest@[best as int], #[trigger] rest@[j]),
            decreases rest.len() - k,
        {
            let a = rest[k].added_at;
            let b = rest[best].added_at;
            if a.secs() > b.secs() || (a.secs() == b.secs() && a.nanos() > b.nanos()) {
                best = k;
            }
            k = k + 1;
        }
        let ghost before_rest = rest@;
        let ghost before_out = out@;
        let e = rest.remove(best);
        assert(rest@ == before_rest.remove(best as int));
        assert(e == before_rest[best as int]);
        proof {
            vstd::seq_lib::to_multiset_remove(before_rest, best as int);
            before_rest.to_multiset_ensures();
        }
        assert(before_rest.remove(best as int).to_multiset() == before_rest.to_multiset().remove(
            e,
        ));
        out.push(e);
        assert(out@ == before_out.push(e));
        assert(before_rest.to_multiset().count(e) > 0) by {
            assert(before_rest.contains(e)) by {
                assert(before_rest[best as int] == e);
            }
        }
        proof {
            vstd::seq_lib::to_multiset_build(before_out, e);
        }
        assert(out@.to_multiset() =~= before_out.to_multiset().insert(e));
        assert(rest@.to_multiset() =~= before_rest.to_multiset().remove(e));
        assert(out@.to_multiset().add(rest@.to_multiset()) =~= before_out.to_multiset().add(
            before_rest.to_multiset(),
        ));
        assert forall|i: int, j: int| 0 <= i < out@.len() && 0 <= j < rest@.len() implies added_no_earlier(
            #[trigger] out@[i],
            #[trigger] rest@[j],
        ) by {
            let jj = if j < best as int { j } else { j + 1 };
            assert(rest@[j] == before_rest[jj]);
            if i < before_out.len() {
                assert(out@[i] == before_out[i]);
            }
        }
        assert forall|i: int, j: int| 0 <= i < j < out@.len() implies added_no_earlier(
            #[trigger] out@[i],
            #[trigger] out@[j],
        ) by {
            if j < before_out.len() {
                assert(out@[i] == before_out[i] && out@[j] == before_out[j]);
            } else {
                assert(out@[i] == before_out[i]);
                assert(out@[j] == e);
                assert(before_rest[best as int] == e);
            }
        }
    }
    assert(rest@.to_multiset() =~= Multiset::<Episode>::empty());
    assert(out@.to_multiset() =~= episodes@.to_multiset());
    out
}

} // verus!

use vstd::prelude::*;
use crate::classifier::{LogDate, VRCLogfile};
use crate::path::{FsPath, IoFailure};

verus! {

/// `n` in decimal with exactly `width` digits: zero-padded, keeping the low digits.
pub open spec fn padded_decimal(n: nat, width: nat) -> Seq<u8>
    decreases width,
{
    if width == 0 {
        seq![]
    } else {
        padded_decimal(n / 10, (width - 1) as nat).push((48 + n % 10) as u8)
    }
}

/// The partition directory's two components: `YYYY-MM` and `DD`.
pub open spec fn partition_parts(d: LogDate) -> Seq<Seq<u8>> {
    seq![
        padded_decimal(d.year as nat, 4) + seq![45u8] + padded_decimal(d.month as nat, 2),
        padded_decimal(d.day as nat, 2),
    ]
}

pub fn padded_decimal_bytes(n: u32, width: usize) -> (r: Vec<u8>)
    ensures
        r@ == padded_decimal(n as nat, width as nat),
    decreases width,
{
    if width == 0 {
        Vec::new()
    } else {
        let mut r = padded_decimal_bytes(n / 10, width - 1);
        r.push((48 + n % 10) as u8);
        r
    }
}

/// The link's destination: the partition directory and the source's own name.
pub open spec fn link_dest(collection: Seq<Seq<u8>>, source: Seq<Seq<u8>>, d: LogDate) -> Seq<Seq<u8>> {
    (collection + partition_parts(d)).push(source.last())
}

/// Whether a hard link's outcome counts as success.
pub open spec fn link_succeeds(o: LinkOutcome) -> bool {
    !(o is Failed)
}

/// Where the link to a dated log file goes.
pub struct LinkPlan {
    /// The source file.
    pub source: FsPath,
    /// The partition directory, to be created with its missing ancestors.
    pub dir: FsPath,
    /// The new entry: the partition directory and the source's own name.
    pub dest: FsPath,
}

/// How creating a hard link ended.
pub enum LinkOutcome {
    Linked,
    /// The destination entry was there already.
    AlreadyExists,
    Failed(IoFailure),
}

/// The date-partitioned tree of links.
pub struct UnrotateCollection {
    pub collection_path: FsPath,
}

impl UnrotateCollection {
    pub fn new(collection_path: FsPath) -> (r: Self)
        ensures
            r.collection_path@ == collection_path@,
    {
        Self { collection_path }
    }

    /// The collection `<locallow>/<vendor>/<app>/<sub>`.
    pub fn with_locallow_path(locallow_path: &FsPath, vendor: Vec<u8>, app: Vec<u8>, sub: Vec<u8>) -> (r: Self)
        ensures
            r.collection_path@ == locallow_path@.push(vendor@).push(app@).push(sub@),
    {
        let collection_path = locallow_path.join(vendor).join(app).join(sub);
        Self::new(collection_path)
    }

    /// `<collection>/<YYYY>-<MM>/<DD>`.
    pub fn partition_folder_path(&self, date: LogDate) -> (r: FsPath)
        requires
            date.wf(),
        ensures
            r@ == self.collection_path@ + partition_parts(date),
    {
        let mut month_dir = padded_decimal_bytes(date.year as u32, 4);
        month_dir.push(45);
        let mut month = padded_decimal_bytes(date.month, 2);
        month_dir.append(&mut month);
        assert(month_dir@ =~= padded_decimal(date.year as nat, 4) + seq![45u8] + padded_decimal(
            date.month as nat,
            2,
        ));
        let day_dir = padded_decimal_bytes(date.day, 2);
        let r = self.collection_path.join(month_dir).join(day_dir);
        assert(r@ =~= self.collection_path@ + partition_parts(date));
        r
    }

    /// The directory to create and the link to make for a dated log file.
    pub fn link_plan(&self, logfile: &VRCLogfile) -> (r: LinkPlan)
        requires
            logfile.date.wf(),
            logfile.path@.len() >= 1,
        ensures
            r.source@ == logfile.path@,
            r.dir@ == self.collection_path@ + partition_parts(logfile.date),
            r.dest@ == r.dir@.push(logfile.path@.last()),
            r.dest@ == link_dest(self.collection_path@, logfile.path@, logfile.date),
    {
        let dir = self.partition_folder_path(logfile.date);
        let dest = dir.join(logfile.path.file_name());
        LinkPlan { source: logfile.path.clone_path(), dir, dest }
    }
}

/// An existing destination counts as success; any other failure is passed on.
pub fn link_result(outcome: LinkOutcome) -> (r: Result<(), IoFailure>)
    ensures
        r is Ok <==> link_succeeds(outcome),
        outcome matches LinkOutcome::Failed(e) ==> r matches Err(e2) && e2 == e,
{
    match outcome {
        LinkOutcome::Linked => Ok(()),
        LinkOutcome::AlreadyExists => Ok(()),
        LinkOutcome::Failed(e) => Err(e),
    }
}

/// Linking the same record twice aims both times at one entry, and the second time,
/// finding that entry there already, counts as success: nothing else is created.
pub proof fn lemma_relink_is_noop(collection: Seq<Seq<u8>>, source: Seq<Seq<u8>>, d1: LogDate, d2: LogDate)
    requires
        d1 == d2,
    ensures
        link_dest(collection, source, d1) == link_dest(collection, source, d2),
        link_succeeds(LinkOutcome::AlreadyExists),
        link_succeeds(LinkOutcome::Linked),
{
}

/// The partition directory of a date, for any collection root `c`: `c` followed by
/// `YYYY-MM` and `DD`, each digit the date's own, zero-padded; nothing else enters it.
pub proof fn lemma_partition_layout(c: Seq<Seq<u8>>, d: LogDate)
    requires
        d.wf(),
    ensures
        ({
            let y = d.year as int;
            let m = d.month as int;
            let dd = d.day as int;
            c + partition_parts(d) == c.push(
                seq![
                    (48 + y / 1000) as u8,
                    (48 + y / 100 % 10) as u8,
                    (48 + y / 10 % 10) as u8,
                    (48 + y % 10) as u8,
                    45u8,
                    (48 + m / 10) as u8,
                    (48 + m % 10) as u8,
                ],
            ).push(seq![(48 + dd / 10) as u8, (48 + dd % 10) as u8])
        }),
{
    reveal_with_fuel(padded_decimal, 5);
    let y = d.year as nat;
    assert(y / 10 / 10 / 10 == y / 1000) by (nonlinear_arith);
    assert(y / 10 / 10 % 10 == y / 100 % 10) by (nonlinear_arith);
    assert(y / 1000 % 10 == y / 1000) by (nonlinear_arith) requires y <= 9999;
    assert((d.month as nat) / 10 % 10 == (d.month as nat) / 10);
    assert((d.day as nat) / 10 % 10 == (d.day as nat) / 10);
    let ym = padded_decimal(d.year as nat, 4) + seq![45u8] + padded_decimal(d.month as nat, 2);
    assert(ym =~= seq![
        (48 + y / 1000) as u8,
        (48 + y / 100 % 10) as u8,
        (48 + y / 10 % 10) as u8,
        (48 + y % 10) as u8,
        45u8,
        (48 + (d.month as nat) / 10) as u8,
        (48 + (d.month as nat) % 10) as u8,
    ]);
    assert(padded_decimal(d.day as nat, 2) =~= seq![(48 + (d.day as nat) / 10) as u8, (48 + (d.day as nat) % 10) as u8]);
    assert(c + partition_parts(d) =~= c.push(ym).push(padded_decimal(d.day as nat, 2)));
}

proof fn lemma_four_digits(y: int)
    requires
        0 <= y <= 9999,
    ensures
        y == 1000 * (y / 1000) + 100 * (y / 100 % 10) + 10 * (y / 10 % 10) + y % 10,
        0 <= y / 1000 <= 9,
        0 <= y / 100 % 10 <= 9,
        0 <= y / 10 % 10 <= 9,
        0 <= y % 10 <= 9,
{
    assert(y == 1000 * (y / 1000) + 100 * (y / 100 % 10) + 10 * (y / 10 % 10) + y % 10) by (nonlinear_arith)
        requires
            0 <= y <= 9999,
    ;
}

/// Two dates share a partition directory exactly when they are the same date, so
/// each day's logs gather in one directory of their own.
pub proof fn lemma_partition_distinguishes_dates(c: Seq<Seq<u8>>, d1: LogDate, d2: LogDate)
    requires
        d1.wf(),
        d2.wf(),
    ensures
        (c + partition_parts(d1) == c + partition_parts(d2)) <==> d1 == d2,
{
    if c + partition_parts(d1) == c + partition_parts(d2) {
        lemma_partition_layout(c, d1);
        lemma_partition_layout(c, d2);
        let n = c.len() as int;
        let a = (c + partition_parts(d1))[n];
        let b = (c + partition_parts(d2))[n];
        let e = (c + partition_parts(d1))[n + 1];
        let f = (c + partition_parts(d2))[n + 1];
        assert(a == b && e == f);
        let (y1, y2) = (d1.year as int, d2.year as int);
        lemma_four_digits(y1);
        lemma_four_digits(y2);
        assert(a[0] == b[0] && a[1] == b[1] && a[2] == b[2] && a[3] == b[3]);
        assert(a[5] == b[5] && a[6] == b[6] && e[0] == f[0] && e[1] == f[1]);
        assert(y1 / 1000 == y2 / 1000);
        assert(y1 / 100 % 10 == y2 / 100 % 10);
        assert(y1 / 10 % 10 == y2 / 10 % 10);
        assert(y1 % 10 == y2 % 10);
        assert(d1.year == d2.year);
        assert(d1.month == d2.month);
        assert(d1.day == d2.day);
    }
}

} // verus!

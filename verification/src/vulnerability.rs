//! The closed registry of vulnerability detectors.
//!
//! Every detector is a pure, total function of the contract's state: it is
//! evaluated for every contract that survives filtering, produces exactly one
//! report, and never fails, also on contracts with absent bytecode and absent
//! source.

use vstd::prelude::*;

use crate::contract::Contract;
use crate::report::{Report, ReportView};
use crate::text::{address_text, address_to_hex, contains_pattern, dec_digits, str_contains, u128_to_dec};

verus! {

/// The detector variants. Extending the registry means adding a variant here
/// and to [`all_vulnerabilities`].
#[derive(Clone, Copy, Debug, PartialEq, Eq, Structural)]
pub enum Vulnerability {
    /// Verified source mentions `selfdestruct`: the contract can vanish.
    SelfDestruct,
    /// Verified source mentions `tx.origin`: phishable authentication.
    TxOrigin,
    /// Verified source mentions `delegatecall`: code injection surface.
    DelegateCall,
    /// No verified source was published for the address.
    UnverifiedSource,
}

/// The enumeration order of the registry, which fixes report order.
pub open spec fn all_variants() -> Seq<Vulnerability> {
    seq![
        Vulnerability::SelfDestruct,
        Vulnerability::TxOrigin,
        Vulnerability::DelegateCall,
        Vulnerability::UnverifiedSource,
    ]
}

/// The full detector registry, in enumeration order.
pub fn all_vulnerabilities() -> (v: Vec<Vulnerability>)
    ensures
        v@ == all_variants(),
{
    let mut v: Vec<Vulnerability> = Vec::new();
    v.push(Vulnerability::SelfDestruct);
    v.push(Vulnerability::TxOrigin);
    v.push(Vulnerability::DelegateCall);
    v.push(Vulnerability::UnverifiedSource);
    proof {
        assert(v@ =~= all_variants());
    }
    v
}

/// The source pattern a scanning variant looks for.
pub open spec fn pattern_of(v: Vulnerability) -> Seq<char> {
    match v {
        Vulnerability::SelfDestruct => "selfdestruct"@,
        Vulnerability::TxOrigin => "tx.origin"@,
        Vulnerability::DelegateCall => "delegatecall"@,
        Vulnerability::UnverifiedSource => Seq::empty(),
    }
}

/// The risk line each variant writes into its reports.
pub open spec fn description_of(v: Vulnerability) -> Seq<char> {
    match v {
        Vulnerability::SelfDestruct => "source contains selfdestruct"@,
        Vulnerability::TxOrigin => "source authenticates with tx.origin"@,
        Vulnerability::DelegateCall => "source contains delegatecall"@,
        Vulnerability::UnverifiedSource => "source code is not verified"@,
    }
}

/// The threat recorded when no verified source exists for an address.
pub open spec fn no_source_threat() -> Seq<char> {
    "no verified source published for this address"@
}

fn pattern_str(v: &Vulnerability) -> (s: &'static str)
    requires
        *v != Vulnerability::UnverifiedSource,
    ensures
        s@ == pattern_of(*v),
{
    match v {
        Vulnerability::SelfDestruct => "selfdestruct",
        Vulnerability::TxOrigin => "tx.origin",
        Vulnerability::DelegateCall => "delegatecall",
        Vulnerability::UnverifiedSource => "",
    }
}

fn description_str(v: &Vulnerability) -> (s: &'static str)
    ensures
        s@ == description_of(*v),
{
    match v {
        Vulnerability::SelfDestruct => "source contains selfdestruct",
        Vulnerability::TxOrigin => "source authenticates with tx.origin",
        Vulnerability::DelegateCall => "source contains delegatecall",
        Vulnerability::UnverifiedSource => "source code is not verified",
    }
}

/// Some line of the file `f` (a name and its lines) contains `pat`.
pub open spec fn file_has_pattern(f: (String, Vec<String>), pat: Seq<char>) -> bool {
    exists|i: int| 0 <= i < f.1@.len() && contains_pattern(f.1@[i]@, pat)
}

/// The names of the files in `files` with a line that contains `pat`, in
/// listing order.
pub open spec fn matching_file_names(
    files: Seq<(String, Vec<String>)>,
    pat: Seq<char>,
) -> Seq<Seq<char>>
    decreases files.len(),
{
    if files.len() == 0 {
        Seq::empty()
    } else if file_has_pattern(files.last(), pat) {
        matching_file_names(files.drop_last(), pat).push(files.last().0@)
    } else {
        matching_file_names(files.drop_last(), pat)
    }
}

fn any_line_contains(lines: &Vec<String>, pat: &str) -> (r: bool)
    ensures
        r == exists|i: int| 0 <= i < lines@.len() && contains_pattern(lines@[i]@, pat@),
{
    let n = lines.len();
    let mut i: usize = 0;
    while i < n
        invariant
            n == lines@.len(),
            i <= n,
            forall|k: int| 0 <= k < i ==> !contains_pattern(lines@[k]@, pat@),
        decreases n - i,
    {
        if str_contains(lines[i].as_str(), pat) {
            return true;
        }
        i += 1;
    }
    false
}

fn scan_files(files: &Vec<(String, Vec<String>)>, pat: &str) -> (r: Vec<String>)
    ensures
        r.deep_view() == matching_file_names(files@, pat@),
{
    let mut out: Vec<String> = Vec::new();
    let n = files.len();
    let mut i: usize = 0;
    proof {
        assert(out.deep_view() =~= matching_file_names(files@.subrange(0, 0), pat@));
    }
    while i < n
        invariant
            n == files@.len(),
            i <= n,
            out.deep_view() == matching_file_names(files@.subrange(0, i as int), pat@),
        decreases n - i,
    {
        let f = &files[i];
        let matched = any_line_contains(&f.1, pat);
        if matched {
            out.push(f.0.clone());
        }
        proof {
            let prefix = files@.subrange(0, i + 1);
            assert(prefix.drop_last() =~= files@.subrange(0, i as int));
            assert(prefix.last() == files@[i as int]);
            assert(matched == file_has_pattern(files@[i as int], pat@));
            assert(out.deep_view() =~= matching_file_names(prefix, pat@));
        }
        i += 1;
    }
    proof {
        assert(files@.subrange(0, n as int) =~= files@);
    }
    out
}

/// The threat list variant `v` produces for contract `c`.
pub open spec fn spec_threats(v: Vulnerability, c: Contract) -> Seq<Seq<char>> {
    match v {
        Vulnerability::UnverifiedSource => if c.verified_code is None {
            seq![no_source_threat()]
        } else {
            Seq::empty()
        },
        _ => match c.verified_code {
            Some(files) => matching_file_names(files@, pattern_of(v)),
            None => Seq::empty(),
        },
    }
}

/// The one report variant `v` produces for contract `c`.
pub open spec fn spec_report_of(v: Vulnerability, c: Contract) -> ReportView {
    ReportView {
        address: address_text(c.address),
        balance: dec_digits(c.balance as nat),
        description: description_of(v),
        potential_threat: spec_threats(v, c),
    }
}

impl Vulnerability {
    /// Evaluates this detector on one contract.
    ///
    /// Total over the whole input domain: there is no precondition, and every
    /// call returns exactly one report, also for a contract with absent
    /// bytecode and absent source.
    pub fn detect(&self, contract: &Contract) -> (r: Report)
        ensures
            r@ == spec_report_of(*self, *contract),
    {
        let potential_threat: Vec<String> = match self {
            Vulnerability::UnverifiedSource => {
                match &contract.verified_code {
                    Option::None => {
                        let mut v: Vec<String> = Vec::new();
                        v.push(String::from_str("no verified source published for this address"));
                        proof {
                            assert(v.deep_view() =~= spec_threats(*self, *contract));
                        }
                        v
                    },
                    Option::Some(_) => {
                        let v: Vec<String> = Vec::new();
                        proof {
                            assert(v.deep_view() =~= spec_threats(*self, *contract));
                        }
                        v
                    },
                }
            },
            _ => {
                match &contract.verified_code {
                    Option::Some(files) => {
                        let v = scan_files(files, pattern_str(self));
                        v
                    },
                    Option::None => {
                        let v: Vec<String> = Vec::new();
                        proof {
                            assert(v.deep_view() =~= spec_threats(*self, *contract));
                        }
                        v
                    },
                }
            },
        };
        let r = Report {
            address: address_to_hex(&contract.address),
            balance: u128_to_dec(contract.balance),
            description: String::from_str(description_str(self)),
            potential_threat,
        };
        proof {
            assert(r@ =~= spec_report_of(*self, *contract));
        }
        r
    }
}

/// The reports the variants `vs` produce for one contract, in order.
pub open spec fn detector_reports(vs: Seq<Vulnerability>, c: Contract) -> Seq<ReportView>
    decreases vs.len(),
{
    if vs.len() == 0 {
        Seq::empty()
    } else {
        detector_reports(vs.drop_last(), c).push(spec_report_of(vs.last(), c))
    }
}

/// The reports of a whole batch: detector-major within contract-major order.
pub open spec fn block_reports(cs: Seq<Contract>) -> Seq<ReportView>
    decreases cs.len(),
{
    if cs.len() == 0 {
        Seq::empty()
    } else {
        block_reports(cs.drop_last()) + detector_reports(all_variants(), cs.last())
    }
}

proof fn lemma_detector_reports_len(vs: Seq<Vulnerability>, c: Contract)
    ensures
        detector_reports(vs, c).len() == vs.len(),
    decreases vs.len(),
{
    if vs.len() > 0 {
        lemma_detector_reports_len(vs.drop_last(), c);
    }
}

/// Exactly one report exists per (contract, variant) pair: a batch of `n`
/// contracts yields `n` times the size of the registry.
pub proof fn lemma_one_report_per_pair(cs: Seq<Contract>)
    ensures
        block_reports(cs).len() == cs.len() * all_variants().len(),
    decreases cs.len(),
{
    if cs.len() > 0 {
        lemma_one_report_per_pair(cs.drop_last());
        lemma_detector_reports_len(all_variants(), cs.last());
        assert(cs.len() * all_variants().len() == (cs.len() - 1) * all_variants().len()
            + all_variants().len()) by (nonlinear_arith)
            requires
                cs.len() > 0,
        ;
    }
}

/// Runs every detector over every contract: all detectors for the first
/// contract, then all detectors for the second, and so on, in registry order.
pub fn run_detectors(contracts: &Vec<Contract>) -> (r: Vec<Report>)
    ensures
        r.deep_view() == block_reports(contracts@),
{
    let vulns = all_vulnerabilities();
    let mut r: Vec<Report> = Vec::new();
    let n = contracts.len();
    let mut i: usize = 0;
    proof {
        assert(r.deep_view() =~= block_reports(contracts@.subrange(0, 0)));
    }
    while i < n
        invariant
            n == contracts@.len(),
            vulns@ == all_variants(),
            i <= n,
            r.deep_view() == block_reports(contracts@.subrange(0, i as int)),
        decreases n - i,
    {
        let m = vulns.len();
        let mut j: usize = 0;
        while j < m
            invariant
                n == contracts@.len(),
                vulns@ == all_variants(),
                m == vulns@.len(),
                i < n,
                j <= m,
                r.deep_view() == block_reports(contracts@.subrange(0, i as int))
                    + detector_reports(vulns@.subrange(0, j as int), contracts@[i as int]),
            decreases m - j,
        {
            let report = vulns[j].detect(&contracts[i]);
            let ghost before = r.deep_view();
            r.push(report);
            proof {
                let c = contracts@[i as int];
                let vp = vulns@.subrange(0, j + 1);
                assert(vp.drop_last() =~= vulns@.subrange(0, j as int));
                assert(vp.last() == vulns@[j as int]);
                assert(detector_reports(vp, c) == detector_reports(vulns@.subrange(0, j as int),
                    c).push(spec_report_of(vulns@[j as int], c)));
                assert(r.deep_view() =~= before.push(report@));
                assert(r.deep_view() =~= block_reports(contracts@.subrange(0, i as int))
                    + detector_reports(vp, c));
            }
            j += 1;
        }
        proof {
            let cp = contracts@.subrange(0, i + 1);
            assert(cp.drop_last() =~= contracts@.subrange(0, i as int));
            assert(cp.last() == contracts@[i as int]);
            assert(vulns@.subrange(0, m as int) =~= all_variants());
            assert(r.deep_view() =~= block_reports(cp));
        }
        i += 1;
    }
    proof {
        assert(contracts@.subrange(0, n as int) =~= contracts@);
    }
    r
}

} // verus!

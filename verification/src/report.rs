//! Risk reports and their stable textual rendering.

use vstd::prelude::*;

verus! {

/// One detector finding for one contract, ready for rendering.
#[derive(Debug)]
pub struct Report {
    pub address: String,
    pub balance: String,
    pub description: String,
    pub potential_threat: Vec<String>,
}

/// The mathematical content of a report: every field as a character sequence.
#[verifier::ext_equal]
pub ghost struct ReportView {
    pub address: Seq<char>,
    pub balance: Seq<char>,
    pub description: Seq<char>,
    pub potential_threat: Seq<Seq<char>>,
}

impl View for Report {
    type V = ReportView;

    open spec fn view(&self) -> ReportView {
        ReportView {
            address: self.address@,
            balance: self.balance@,
            description: self.description@,
            potential_threat: self.potential_threat.deep_view(),
        }
    }
}

impl DeepView for Report {
    type V = ReportView;

    open spec fn deep_view(&self) -> ReportView {
        self.view()
    }
}

/// The threat block of a report: one line per threat, each prefixed with the
/// fixed marker.
pub open spec fn threats_text(ts: Seq<Seq<char>>) -> Seq<char>
    decreases ts.len(),
{
    if ts.len() == 0 {
        Seq::empty()
    } else {
        threats_text(ts.drop_last()) + "====>"@ + ts.last() + "\n"@
    }
}

/// The full text of one report: a header line with address and balance, a
/// risk line, the threat block, and a blank separator.
pub open spec fn report_text(r: ReportView) -> Seq<char> {
    r.address + " with "@ + r.balance + "\nRisk: "@ + r.description + "\nThreats:\n"@
        + threats_text(r.potential_threat) + "\n\n\n"@
}

impl Report {
    /// Renders the report in the sink format: header line, risk line, and the
    /// indented threat list, each threat behind the fixed `====>` marker,
    /// ending in a blank separator line.
    pub fn to_text(&self) -> (s: String)
        ensures
            s@ == report_text(self@),
    {
        let mut s = String::new();
        s.append(self.address.as_str());
        s.append(" with ");
        s.append(self.balance.as_str());
        s.append("\nRisk: ");
        s.append(self.description.as_str());
        s.append("\nThreats:\n");
        let ghost head = self.address@ + " with "@ + self.balance@ + "\nRisk: "@
            + self.description@ + "\nThreats:\n"@;
        proof {
            assert(s@ =~= head);
        }
        let n = self.potential_threat.len();
        let mut i: usize = 0;
        while i < n
            invariant
                n == self.potential_threat@.len(),
                i <= n,
                head == self.address@ + " with "@ + self.balance@ + "\nRisk: "@
                    + self.description@ + "\nThreats:\n"@,
                s@ == head + threats_text(self.potential_threat.deep_view().subrange(0, i as int)),
            decreases n - i,
        {
            s.append("====>");
            s.append(self.potential_threat[i].as_str());
            s.append("\n");
            proof {
                let ts = self.potential_threat.deep_view();
                assert(ts.subrange(0, i + 1).drop_last() =~= ts.subrange(0, i as int));
                assert(ts.subrange(0, i + 1).last() == self.potential_threat@[i as int]@);
                assert(s@ =~= head + threats_text(ts.subrange(0, i + 1)));
            }
            i += 1;
        }
        s.append("\n\n\n");
        proof {
            let ts = self.potential_threat.deep_view();
            assert(ts.subrange(0, n as int) =~= ts);
            assert(s@ =~= report_text(self@));
        }
        s
    }
}

/// The text of a whole batch of reports, in order, one record per report.
pub open spec fn rendered_reports(rs: Seq<ReportView>) -> Seq<char>
    decreases rs.len(),
{
    if rs.len() == 0 {
        Seq::empty()
    } else {
        rendered_reports(rs.drop_last()) + report_text(rs.last()) + "\n"@
    }
}

/// Renders a batch of reports into the text appended to the sink: the
/// reports in order, each followed by a record separator.
pub fn render_reports(reports: &Vec<Report>) -> (s: String)
    ensures
        s@ == rendered_reports(reports.deep_view()),
{
    let mut s = String::new();
    let n = reports.len();
    let mut i: usize = 0;
    while i < n
        invariant
            n == reports@.len(),
            i <= n,
            s@ == rendered_reports(reports.deep_view().subrange(0, i as int)),
        decreases n - i,
    {
        let t = reports[i].to_text();
        s.append(t.as_str());
        s.append("\n");
        proof {
            let rs = reports.deep_view();
            assert(rs.subrange(0, i + 1).drop_last() =~= rs.subrange(0, i as int));
            assert(rs.subrange(0, i + 1).last() == reports@[i as int]@);
            assert(s@ =~= rendered_reports(rs.subrange(0, i + 1)));
        }
        i += 1;
    }
    proof {
        assert(reports.deep_view().subrange(0, n as int) =~= reports.deep_view());
    }
    s
}

} // verus!

//! Composition of the HTML body of a notification message.
//!
//! The body is a fixed layout with one row per changed entry. Each row
//! shows the entry's poster, title, release year, public-page link,
//! in-production state, status, last and next episode and episode count;
//! a field present in the entry's change set is wrapped in a colored
//! span to distinguish it from unchanged ones.

use vstd::prelude::*;
use crate::episode::episode_identify_rep;
use crate::notify::{attachment_uri_rep, SeriesEntry};
use crate::series::status_rep;
use crate::text::{append_i64, dec_rep, int_rep};

verus! {

/// Everything of the body before the first entry row.
pub open spec fn html_head_rep() -> Seq<char> {
    "<!doctype html>\n<html>\n    <head>\n    <meta name=\"viewport\" content=\"width=device-width\">\n    <meta http-equiv=\"Content-Type\" content=\"text/html; charset=UTF-8\">\n    <title>TVTrack updates</title>\n    <style>\n@media only screen and (max-width: 620px) {\n    table[class=body] h1 {\n    font-size: 28px !important;\n    margin-bottom: 10px !important;\n    }\n\n    table[class=body] p,\ntable[class=body] ul,\ntable[class=body] ol,\ntable[class=body] td,\ntable[class=body] span,\ntable[class=body] a {\n    font-size: 16px !important;\n    }\n\n    table[class=body] .wrapper,\ntable[class=body] .article {\n    padding: 10px !important;\n    }\n\n    table[class=body] .content {\n    padding: 0 !important;\n    }\n\n    table[class=body] .container {\n    padding: 0 !important;\n    width: 100% !important;\n    }\n\n    table[class=body] .main {\n    border-left-width: 0 !important;\n    border-radius: 0 !important;\n    border-right-width: 0 !important;\n    }\n\n    table[class=body] .btn table {\n    width: 100% !important;\n    }\n\n    table[class=body] .btn a {\n    width: 100% !important;\n    }\n\n    table[class=body] .img-responsive {\n    height: auto !important;\n    max-width: 100% !important;\n    width: auto !important;\n    }\n}\n@media all {\n    .ExternalClass {\n    width: 100%;\n    }\n\n    .ExternalClass,\n.ExternalClass p,\n.ExternalClass span,\n.ExternalClass font,\n.ExternalClass td,\n.ExternalClass div {\n    line-height: 100%;\n    }\n\n    .apple-link a {\n    color: inherit !important;\n    font-family: inherit !important;\n    font-size: inherit !important;\n    font-weight: inherit !important;\n    line-height: inherit !important;\n    text-decoration: none !important;\n    }\n\n    .btn-primary table td:hover {\n    background-color: #d5075d !important;\n    }\n\n    .btn-primary a:hover {\n    background-color: #d5075d !important;\n    border-color: #d5075d !important;\n    }\n}\n</style></head>\n<body class style=\"background-color: #eaebed; font-family: sans-serif; -webkit-font-smoothing: antialiased; font-size: 14px; line-height: 1.4; margin: 0; padding: 0; -ms-text-size-adjust: 100%; -webkit-text-size-adjust: 100%;\">\n<table role=\"presentation\" border=\"0\" cellpadding=\"0\" cellspacing=\"0\" class=\"body\" style=\"border-collapse: separate; mso-table-lspace: 0pt; mso-table-rspace: 0pt; min-width: 100%; background-color: #eaebed; width: 100%;\" width=\"100%\" bgcolor=\"#eaebed\">\n    <tr>\n    <td style=\"font-family: sans-serif; font-size: 14px; vertical-align: top;\" valign=\"top\">&nbsp;</td>\n    <td class=\"container\" style=\"font-family: sans-serif; font-size: 14px; vertical-align: top; display: block; max-width: 580px; padding: 10px; width: 580px; Margin: 0 auto;\" width=\"580\" valign=\"top\">\n        <div class=\"header\" style=\"padding: 20px 0;\">\n        <table role=\"presentation\" border=\"0\" cellpadding=\"0\" cellspacing=\"0\" style=\"border-collapse: separate; mso-table-lspace: 0pt; mso-table-rspace: 0pt; min-width: 100%; width: 100%;\" width=\"100%\">\n            <tr>\n            <td class=\"align-center\" style=\"font-family: sans-serif; font-size: 14px; vertical-align: top; text-align: center;\" valign=\"top\" align=\"center\">\n                <h2 style=\"color: #06090f; font-family: sans-serif; font-weight: 400; line-height: 1.4; margin-bottom: 30px; margin: 0; padding: 0;\">TVTrack updates</h2>\n            </td>\n            </tr>\n        </table>\n        </div>\n        <div class=\"content\" style=\"box-sizing: border-box; display: block; Margin: 0 auto; max-width: 580px; padding: 10px;\">\n\n        <!-- START CENTERED WHITE CONTAINER -->\n        <span class=\"preheader\" style=\"color: transparent; display: none; height: 0; max-height: 0; max-width: 0; opacity: 0; overflow: hidden; mso-hide: all; visibility: hidden; width: 0;\">Updates to series you are tracking</span>\n\n        <table role=\"presentation\" class=\"main\" style=\"border-collapse: separate; mso-table-lspace: 0pt; mso-table-rspace: 0pt; min-width: 100%; background: #ffffff; border-radius: 3px; width: 100%;\" width=\"100%\">\n\n            <!-- START MAIN CONTENT AREA -->\n            <tr>\n            <td class=\"wrapper\" style=\"font-family: sans-serif; font-size: 14px; vertical-align: top; box-sizing: border-box; padding: 20px;\" valign=\"top\">\n                <table role=\"presentation\" border=\"0\" cellpadding=\"0\" cellspacing=\"0\" style=\"border-collapse: separate; mso-table-lspace: 0pt; mso-table-rspace: 0pt; min-width: 100%; width: 100%;\" width=\"100%\">\n"@
}

/// Everything of the body after the last entry row.
pub open spec fn html_foot_rep() -> Seq<char> {
    "\n                    </table>\n                </td>\n                </tr>\n\n            <!-- END MAIN CONTENT AREA -->\n            </table>\n\n            <!-- END CENTERED WHITE CONTAINER -->\n            </div>\n        </td>\n        <td style=\"font-family: sans-serif; font-size: 14px; vertical-align: top;\" valign=\"top\">&nbsp;</td>\n        </tr>\n    </table>\n    </body>\n</html>"@
}

/// A value wrapped in the span marking a changed field.
pub open spec fn changed_span_rep(inner: Seq<char>) -> Seq<char> {
    "<span style=\"color: #b6004c;\">"@ + inner + "</span>"@
}

/// The release year of the entry, or the word `unreleased`.
pub open spec fn year_cell_rep(e: SeriesEntry) -> Seq<char> {
    match e.series.details.first_air_date.0 {
        Some(d) => dec_rep(d.year as int),
        None => "unreleased"@,
    }
}

/// The in-production line: the current state, or the transition marked
/// as changed.
pub open spec fn in_production_cell_rep(e: SeriesEntry) -> Seq<char> {
    match e.changes.in_production_change {
        None => if e.series.details.in_production {
            "In production"@
        } else {
            "Not in production"@
        },
        Some((_b, now_in_prod)) => if now_in_prod {
            changed_span_rep("Now in production"@)
        } else {
            changed_span_rep("No longer in production"@)
        },
    }
}

/// The status line: the current status, or the transition marked as
/// changed.
pub open spec fn status_cell_rep(e: SeriesEntry) -> Seq<char> {
    match e.changes.status_change {
        None => status_rep(e.series.details.status),
        Some((o, n)) => changed_span_rep(status_rep(o) + " &#8658; "@ + status_rep(n)),
    }
}

/// The last-episode line, marked as changed when the change set says so.
pub open spec fn last_episode_cell_rep(e: SeriesEntry) -> Seq<char> {
    let base = match e.series.details.last_episode_to_air {
        Some(ep) => episode_identify_rep(ep),
        None => "none"@,
    };
    if e.changes.last_episode_change is Some {
        changed_span_rep(base)
    } else {
        base
    }
}

/// The next-episode line, marked as changed when the change set says so.
pub open spec fn next_episode_cell_rep(e: SeriesEntry) -> Seq<char> {
    let base = match e.series.details.next_episode_to_air {
        Some(ep) => episode_identify_rep(ep),
        None => "unknown"@,
    };
    if e.changes.next_episode_change is Some {
        changed_span_rep(base)
    } else {
        base
    }
}

/// The episode-count line: the current count; a grown count is reported
/// as how many episodes are new, any other change as a transition.
pub open spec fn episode_count_cell_rep(e: SeriesEntry) -> Seq<char> {
    match e.changes.episode_count_change {
        None => int_rep(e.series.details.number_of_episodes as int),
        Some((o, n)) => if o < n {
            changed_span_rep(int_rep(n - o) + " new ("@ + int_rep(n as int) + " total)"@)
        } else {
            changed_span_rep(int_rep(o as int) + " &#8658; "@ + int_rep(n as int))
        },
    }
}

/// The bottom margin of a row: none for the last row of the table.
pub open spec fn margin_rep(is_last: bool) -> Seq<char> {
    if is_last {
        "0"@
    } else {
        "30"@
    }
}

/// The first part of an entry row: poster image, linked title and year.
pub open spec fn row_a_rep(e: SeriesEntry) -> Seq<char> {
    "\n                    <tr>\n                        <td class=\"series-poster\" style=\"font-family: sans-serif; font-size: 14px; vertical-align: top; width: 110px;\" width=\"110\" valign=\"top\">\n                        <img src=\""@ + attachment_uri_rep(e) + "\" alt=\""@ + e.series.details.name@ + " poster\" style=\"border: none; -ms-interpolation-mode: bicubic; max-width: 100%; width: 92px;\" width=\"92\">\n                        </td>\n                        <td style=\"font-family: sans-serif; font-size: 14px; vertical-align: top;\" valign=\"top\">\n                        <h3 class=\"series-title\" style=\"color: #06090f; font-family: sans-serif; font-weight: 400; line-height: 1.4; margin: 0; margin-bottom: 7px;\">\n                            <a href=\""@ + e.url@
        + "\" style=\"color: #ec0867; text-decoration: underline;\">"@ + e.series.details.name@ + " ("@ + year_cell_rep(e)
}

/// The second part of an entry row: margin, in-production and status lines.
pub open spec fn row_b_rep(e: SeriesEntry, is_last: bool) -> Seq<char> {
    ")</a>\n                        </h3>\n                        <ul class=\"series-changes\" style=\"font-family: sans-serif; font-size: 14px; font-weight: normal; margin: 0; padding: 0; margin-bottom: "@ + margin_rep(is_last) + "px;\">\n                            <li style=\"list-style-position: inside; margin-left: 5px;\">"@ + in_production_cell_rep(e) + "</li>\n                            <li style=\"list-style-position: inside; margin-left: 5px;\">"@
        + status_cell_rep(e)
}

/// The third part of an entry row: episode lines and count.
pub open spec fn row_c_rep(e: SeriesEntry) -> Seq<char> {
    "</li>\n                            <li style=\"list-style-position: inside; margin-left: 5px;\">Last: "@ + last_episode_cell_rep(e) + "</li>\n                            <li style=\"list-style-position: inside; margin-left: 5px;\">Next: "@ + next_episode_cell_rep(e) + "</li>\n                            <li style=\"list-style-position: inside; margin-left: 5px;\">Episodes: "@
        + episode_count_cell_rep(e) + "</li>\n                        </ul>\n                        </td>\n                    </tr>"@
}

/// One entry row of the body.
pub open spec fn row_rep(e: SeriesEntry, is_last: bool) -> Seq<char> {
    row_a_rep(e) + row_b_rep(e, is_last) + row_c_rep(e)
}

/// The first `k` rows of the table for the given entries; only the last
/// entry of the whole list gets the last-row margin.
pub open spec fn rows_prefix_rep(s: Seq<SeriesEntry>, k: int) -> Seq<char>
    recommends
        k <= s.len(),
    decreases k,
{
    if k <= 0 {
        Seq::empty()
    } else {
        rows_prefix_rep(s, k - 1) + row_rep(s[k - 1], k == s.len())
    }
}

/// The whole HTML body for the given entries, in order.
pub open spec fn html_rep(s: Seq<SeriesEntry>) -> Seq<char> {
    html_head_rep() + rows_prefix_rep(s, s.len() as int) + html_foot_rep()
}

fn append_changed_open(s: &mut String)
    ensures
        final(s)@ == old(s)@ + "<span style=\"color: #b6004c;\">"@,
{
    s.append("<span style=\"color: #b6004c;\">");
}

fn append_changed_close(s: &mut String)
    ensures
        final(s)@ == old(s)@ + "</span>"@,
{
    s.append("</span>");
}

fn append_year_cell(s: &mut String, e: &SeriesEntry)
    requires
        e.wf(),
    ensures
        final(s)@ == old(s)@ + year_cell_rep(*e),
{
    match e.series.details.first_air_date.0 {
        Some(d) => {
            crate::text::append_u64(s, d.year as u64);
        },
        None => {
            s.append("unreleased");
        },
    }
}

fn append_in_production_cell(s: &mut String, e: &SeriesEntry)
    ensures
        final(s)@ == old(s)@ + in_production_cell_rep(*e),
{
    match e.changes.in_production_change {
        None => {
            if e.series.details.in_production {
                s.append("In production");
            } else {
                s.append("Not in production");
            }
        },
        Some((_b, now_in_prod)) => {
            append_changed_open(s);
            if now_in_prod {
                s.append("Now in production");
            } else {
                s.append("No longer in production");
            }
            append_changed_close(s);
            proof {
                assert(final(s)@ =~= old(s)@ + in_production_cell_rep(*e));
            }
        },
    }
}

fn append_status_cell(s: &mut String, e: &SeriesEntry)
    ensures
        final(s)@ == old(s)@ + status_cell_rep(*e),
{
    match e.changes.status_change {
        None => {
            s.append(e.series.details.status.display_str());
        },
        Some((o, n)) => {
            append_changed_open(s);
            s.append(o.display_str());
            s.append(" &#8658; ");
            s.append(n.display_str());
            append_changed_close(s);
            proof {
                assert(final(s)@ =~= old(s)@ + status_cell_rep(*e));
            }
        },
    }
}

fn append_last_episode_cell(s: &mut String, e: &SeriesEntry)
    requires
        e.wf(),
    ensures
        final(s)@ == old(s)@ + last_episode_cell_rep(*e),
{
    let wrap = e.changes.last_episode_change.is_some();
    if wrap {
        append_changed_open(s);
    }
    match &e.series.details.last_episode_to_air {
        Some(ep) => {
            let line = ep.identify();
            s.append(line.as_str());
        },
        None => {
            s.append("none");
        },
    }
    if wrap {
        append_changed_close(s);
    }
    proof {
        assert(final(s)@ =~= old(s)@ + last_episode_cell_rep(*e));
    }
}

fn append_next_episode_cell(s: &mut String, e: &SeriesEntry)
    requires
        e.wf(),
    ensures
        final(s)@ == old(s)@ + next_episode_cell_rep(*e),
{
    let wrap = e.changes.next_episode_change.is_some();
    if wrap {
        append_changed_open(s);
    }
    match &e.series.details.next_episode_to_air {
        Some(ep) => {
            let line = ep.identify();
            s.append(line.as_str());
        },
        None => {
            s.append("unknown");
        },
    }
    if wrap {
        append_changed_close(s);
    }
    proof {
        assert(final(s)@ =~= old(s)@ + next_episode_cell_rep(*e));
    }
}

fn append_episode_count_cell(s: &mut String, e: &SeriesEntry)
    ensures
        final(s)@ == old(s)@ + episode_count_cell_rep(*e),
{
    match e.changes.episode_count_change {
        None => {
            append_i64(s, e.series.details.number_of_episodes as i64);
        },
        Some((o, n)) => {
            append_changed_open(s);
            if o < n {
                append_i64(s, (n as i64) - (o as i64));
                s.append(" new (");
                append_i64(s, n as i64);
                s.append(" total)");
            } else {
                append_i64(s, o as i64);
                s.append(" &#8658; ");
                append_i64(s, n as i64);
            }
            append_changed_close(s);
            proof {
                assert(final(s)@ =~= old(s)@ + episode_count_cell_rep(*e));
            }
        },
    }
}

fn append_row_a(s: &mut String, e: &SeriesEntry)
    requires
        e.wf(),
    ensures
        final(s)@ == old(s)@ + row_a_rep(*e),
{
    s.append("\n                    <tr>\n                        <td class=\"series-poster\" style=\"font-family: sans-serif; font-size: 14px; vertical-align: top; width: 110px;\" width=\"110\" valign=\"top\">\n                        <img src=\"");
    let uri = e.poster_attachment_uri();
    s.append(uri.as_str());
    s.append("\" alt=\"");
    s.append(e.series.details.name.as_str());
    s.append(" poster\" style=\"border: none; -ms-interpolation-mode: bicubic; max-width: 100%; width: 92px;\" width=\"92\">\n                        </td>\n                        <td style=\"font-family: sans-serif; font-size: 14px; vertical-align: top;\" valign=\"top\">\n                        <h3 class=\"series-title\" style=\"color: #06090f; font-family: sans-serif; font-weight: 400; line-height: 1.4; margin: 0; margin-bottom: 7px;\">\n                            <a href=\"");
    s.append(e.url.as_str());
    s.append("\" style=\"color: #ec0867; text-decoration: underline;\">");
    s.append(e.series.details.name.as_str());
    s.append(" (");
    append_year_cell(s, e);
    proof {
        assert(final(s)@ =~= old(s)@ + row_a_rep(*e));
    }
}

fn append_row_b(s: &mut String, e: &SeriesEntry, is_last: bool)
    ensures
        final(s)@ == old(s)@ + row_b_rep(*e, is_last),
{
    s.append(")</a>\n                        </h3>\n                        <ul class=\"series-changes\" style=\"font-family: sans-serif; font-size: 14px; font-weight: normal; margin: 0; padding: 0; margin-bottom: ");
    if is_last {
        s.append("0");
    } else {
        s.append("30");
    }
    s.append("px;\">\n                            <li style=\"list-style-position: inside; margin-left: 5px;\">");
    append_in_production_cell(s, e);
    s.append("</li>\n                            <li style=\"list-style-position: inside; margin-left: 5px;\">");
    append_status_cell(s, e);
    proof {
        assert(final(s)@ =~= old(s)@ + row_b_rep(*e, is_last));
    }
}

fn append_row_c(s: &mut String, e: &SeriesEntry)
    requires
        e.wf(),
    ensures
        final(s)@ == old(s)@ + row_c_rep(*e),
{
    s.append("</li>\n                            <li style=\"list-style-position: inside; margin-left: 5px;\">Last: ");
    append_last_episode_cell(s, e);
    s.append("</li>\n                            <li style=\"list-style-position: inside; margin-left: 5px;\">Next: ");
    append_next_episode_cell(s, e);
    s.append("</li>\n                            <li style=\"list-style-position: inside; margin-left: 5px;\">Episodes: ");
    append_episode_count_cell(s, e);
    s.append("</li>\n                        </ul>\n                        </td>\n                    </tr>");
    proof {
        assert(final(s)@ =~= old(s)@ + row_c_rep(*e));
    }
}

fn append_row(s: &mut String, e: &SeriesEntry, is_last: bool)
    requires
        e.wf(),
    ensures
        final(s)@ == old(s)@ + row_rep(*e, is_last),
{
    append_row_a(s, e);
    append_row_b(s, e, is_last);
    append_row_c(s, e);
    proof {
        assert(final(s)@ =~= old(s)@ + row_rep(*e, is_last));
    }
}

/// Renders the body for the entries `idxs` picks out of `entries`, in
/// that order.
pub fn make_email_html_selected(entries: &Vec<SeriesEntry>, idxs: &Vec<usize>) -> (r: String)
    requires
        forall|t: int| 0 <= t < idxs@.len() ==> (#[trigger] idxs@[t] as int) < entries@.len(),
        forall|i: int| 0 <= i < entries@.len() ==> (#[trigger] entries@[i]).wf(),
    ensures
        r@ == html_rep(idxs@.map_values(|t: usize| entries@[t as int])),
{
    let ghost sel = idxs@.map_values(|t: usize| entries@[t as int]);
    let mut s = String::new();
    s.append("<!doctype html>\n<html>\n    <head>\n    <meta name=\"viewport\" content=\"width=device-width\">\n    <meta http-equiv=\"Content-Type\" content=\"text/html; charset=UTF-8\">\n    <title>TVTrack updates</title>\n    <style>\n@media only screen and (max-width: 620px) {\n    table[class=body] h1 {\n    font-size: 28px !important;\n    margin-bottom: 10px !important;\n    }\n\n    table[class=body] p,\ntable[class=body] ul,\ntable[class=body] ol,\ntable[class=body] td,\ntable[class=body] span,\ntable[class=body] a {\n    font-size: 16px !important;\n    }\n\n    table[class=body] .wrapper,\ntable[class=body] .article {\n    padding: 10px !important;\n    }\n\n    table[class=body] .content {\n    padding: 0 !important;\n    }\n\n    table[class=body] .container {\n    padding: 0 !important;\n    width: 100% !important;\n    }\n\n    table[class=body] .main {\n    border-left-width: 0 !important;\n    border-radius: 0 !important;\n    border-right-width: 0 !important;\n    }\n\n    table[class=body] .btn table {\n    width: 100% !important;\n    }\n\n    table[class=body] .btn a {\n    width: 100% !important;\n    }\n\n    table[class=body] .img-responsive {\n    height: auto !important;\n    max-width: 100% !important;\n    width: auto !important;\n    }\n}\n@media all {\n    .ExternalClass {\n    width: 100%;\n    }\n\n    .ExternalClass,\n.ExternalClass p,\n.ExternalClass span,\n.ExternalClass font,\n.ExternalClass td,\n.ExternalClass div {\n    line-height: 100%;\n    }\n\n    .apple-link a {\n    color: inherit !important;\n    font-family: inherit !important;\n    font-size: inherit !important;\n    font-weight: inherit !important;\n    line-height: inherit !important;\n    text-decoration: none !important;\n    }\n\n    .btn-primary table td:hover {\n    background-color: #d5075d !important;\n    }\n\n    .btn-primary a:hover {\n    background-color: #d5075d !important;\n    border-color: #d5075d !important;\n    }\n}\n</style></head>\n<body class style=\"background-color: #eaebed; font-family: sans-serif; -webkit-font-smoothing: antialiased; font-size: 14px; line-height: 1.4; margin: 0; padding: 0; -ms-text-size-adjust: 100%; -webkit-text-size-adjust: 100%;\">\n<table role=\"presentation\" border=\"0\" cellpadding=\"0\" cellspacing=\"0\" class=\"body\" style=\"border-collapse: separate; mso-table-lspace: 0pt; mso-table-rspace: 0pt; min-width: 100%; background-color: #eaebed; width: 100%;\" width=\"100%\" bgcolor=\"#eaebed\">\n    <tr>\n    <td style=\"font-family: sans-serif; font-size: 14px; vertical-align: top;\" valign=\"top\">&nbsp;</td>\n    <td class=\"container\" style=\"font-family: sans-serif; font-size: 14px; vertical-align: top; display: block; max-width: 580px; padding: 10px; width: 580px; Margin: 0 auto;\" width=\"580\" valign=\"top\">\n        <div class=\"header\" style=\"padding: 20px 0;\">\n        <table role=\"presentation\" border=\"0\" cellpadding=\"0\" cellspacing=\"0\" style=\"border-collapse: separate; mso-table-lspace: 0pt; mso-table-rspace: 0pt; min-width: 100%; width: 100%;\" width=\"100%\">\n            <tr>\n            <td class=\"align-center\" style=\"font-family: sans-serif; font-size: 14px; vertical-align: top; text-align: center;\" valign=\"top\" align=\"center\">\n                <h2 style=\"color: #06090f; font-family: sans-serif; font-weight: 400; line-height: 1.4; margin-bottom: 30px; margin: 0; padding: 0;\">TVTrack updates</h2>\n            </td>\n            </tr>\n        </table>\n        </div>\n        <div class=\"content\" style=\"box-sizing: border-box; display: block; Margin: 0 auto; max-width: 580px; padding: 10px;\">\n\n        <!-- START CENTERED WHITE CONTAINER -->\n        <span class=\"preheader\" style=\"color: transparent; display: none; height: 0; max-height: 0; max-width: 0; opacity: 0; overflow: hidden; mso-hide: all; visibility: hidden; width: 0;\">Updates to series you are tracking</span>\n\n        <table role=\"presentation\" class=\"main\" style=\"border-collapse: separate; mso-table-lspace: 0pt; mso-table-rspace: 0pt; min-width: 100%; background: #ffffff; border-radius: 3px; width: 100%;\" width=\"100%\">\n\n            <!-- START MAIN CONTENT AREA -->\n            <tr>\n            <td class=\"wrapper\" style=\"font-family: sans-serif; font-size: 14px; vertical-align: top; box-sizing: border-box; padding: 20px;\" valign=\"top\">\n                <table role=\"presentation\" border=\"0\" cellpadding=\"0\" cellspacing=\"0\" style=\"border-collapse: separate; mso-table-lspace: 0pt; mso-table-rspace: 0pt; min-width: 100%; width: 100%;\" width=\"100%\">\n");
    let n = idxs.len();
    let mut t: usize = 0;
    while t < n
        invariant
            t <= n,
            n == idxs@.len(),
            sel == idxs@.map_values(|t2: usize| entries@[t2 as int]),
            forall|u: int| 0 <= u < idxs@.len() ==> (#[trigger] idxs@[u] as int) < entries@.len(),
            forall|i: int| 0 <= i < entries@.len() ==> (#[trigger] entries@[i]).wf(),
            s@ == html_head_rep() + rows_prefix_rep(sel, t as int),
        decreases n - t,
    {
        let e = &entries[idxs[t]];
        let is_last = t == n - 1;
        append_row(&mut s, e, is_last);
        t = t + 1;
        proof {
            assert(sel[t - 1] == entries@[idxs@[t - 1] as int]);
            assert(s@ =~= html_head_rep() + rows_prefix_rep(sel, t as int));
        }
    }
    s.append("\n                    </table>\n                </td>\n                </tr>\n\n            <!-- END MAIN CONTENT AREA -->\n            </table>\n\n            <!-- END CENTERED WHITE CONTAINER -->\n            </div>\n        </td>\n        <td style=\"font-family: sans-serif; font-size: 14px; vertical-align: top;\" valign=\"top\">&nbsp;</td>\n        </tr>\n    </table>\n    </body>\n</html>");
    proof {
        assert(s@ =~= html_rep(sel));
    }
    s
}

/// Renders the body for all of `entries`, in order.
pub fn make_email_html(entries: &Vec<SeriesEntry>) -> (r: String)
    requires
        forall|i: int| 0 <= i < entries@.len() ==> (#[trigger] entries@[i]).wf(),
    ensures
        r@ == html_rep(entries@),
{
    let mut idxs: Vec<usize> = Vec::new();
    let mut i: usize = 0;
    while i < entries.len()
        invariant
            i <= entries@.len(),
            idxs@.len() == i,
            forall|t: int| 0 <= t < i ==> #[trigger] idxs@[t] == t as usize,
        decreases entries@.len() - i,
    {
        idxs.push(i);
        i = i + 1;
    }
    let r = make_email_html_selected(entries, &idxs);
    proof {
        assert(idxs@.map_values(|t: usize| entries@[t as int]) =~= entries@);
    }
    r
}

} // verus!

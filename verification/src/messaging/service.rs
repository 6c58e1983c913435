//! The texts of the messages that the Telegram messaging service sends.
use vstd::prelude::*;

use crate::bot_handler::commands::add::{pair_views, AddSummary};
use crate::bot_handler::{bot_error_text, BotHandlerError};
use crate::github::IssueNode;
use crate::messaging::html::{escape, html_escaped, html_link, link};
use crate::messaging::utils::{color_emoji, github_color_to_emoji};
use crate::pagination::Paginated;
use crate::repository::LabelNormalized;
use crate::storage::repo_entity::github_repo_url;
use crate::storage::RepoEntity;
use crate::text::{decimal, join, join_strings, lowercase, usize_to_decimal, views};

verus! {

/// The outside type of a Telegram bot handle.
#[verifier::external_type_specification]
#[verifier::external_body]
pub struct ExBot(teloxide::Bot);

/// The default messaging service: sends through a Telegram bot.
pub struct TelegramMessagingService {
    /// The bot that sends the messages.
    pub bot: teloxide::Bot,
}

/// The prompt that asks for repository URLs.
pub const PROMPT_TEXT: &'static str = "Please reply with repository URLs separated by spaces or new lines.";

/// The welcome text.
pub const START_TEXT: &'static str = "👋 Welcome! Use buttons below to track repository issues (i.e. 'good first issue', 'bug', 'enhancement', etc.)";

/// The status shown while the repositories of a reply are being added.
pub const PROCESSING_TEXT: &'static str = "Processing... ⏳";

/// The text shown when the user tracks no repository.
pub const LIST_EMPTY_TEXT: &'static str = "Currently no repositories tracked";

/// `- ` followed by the escaped item.
pub open spec fn bullet(item: Seq<char>) -> Seq<char> {
    "- "@ + html_escaped(item)
}

/// One bullet line per item.
pub open spec fn bullets(items: Seq<Seq<char>>) -> Seq<Seq<char>> {
    items.map_values(|i: Seq<char>| bullet(i))
}

/// The text of a page of a paginated list, or of an empty list.
pub open spec fn paginated_text(
    title: Seq<char>,
    page: nat,
    total_pages: nat,
    total_items: nat,
    item_name_plural: Seq<char>,
) -> Seq<char> {
    if total_items == 0 {
        title + "\n\nNo "@ + item_name_plural + " found."@
    } else {
        title + " (Page "@ + decimal(page) + " of "@ + decimal(total_pages) + ")\nTotal "@
            + item_name_plural + ": "@ + decimal(total_items)
    }
}

/// A category of the add summary: a bold title and the items as bullets,
/// or nothing when there are no items.
pub open spec fn summary_category(title: Seq<char>, items: Seq<Seq<char>>) -> Seq<Seq<char>> {
    if items.len() == 0 {
        Seq::empty()
    } else {
        seq!["<b>"@ + html_escaped(title) + ":</b>\n"@ + join(bullets(items), "\n"@)]
    }
}

/// The line of one failed repository: its name and the error.
pub open spec fn error_line(e: (Seq<char>, Seq<char>)) -> Seq<char> {
    "- "@ + html_escaped(e.0) + ": "@ + html_escaped(e.1)
}

/// The errors of the add summary, or nothing when there are none.
pub open spec fn errors_category(errors: Seq<(Seq<char>, Seq<char>)>) -> Seq<Seq<char>> {
    if errors.len() == 0 {
        Seq::empty()
    } else {
        seq![
            "❌ <b>Errors:</b>\n"@ + join(
                errors.map_values(|e: (Seq<char>, Seq<char>)| error_line(e)),
                "\n"@,
            ),
        ]
    }
}

/// The paragraphs of the add summary: the title, then each category that
/// has entries, or a note that nothing was processed.
pub open spec fn summary_parts(s: AddSummary) -> Seq<Seq<char>> {
    let body = summary_category("✅ Successfully Added"@, views(s.successfully_added@))
        + summary_category("➡️ Already Tracked"@, views(s.already_tracked@))
        + summary_category("❓ Not Found on GitHub"@, views(s.not_found@))
        + summary_category("⚠️ Invalid URL"@, views(s.invalid_urls@))
        + errors_category(pair_views(s.errors@));
    seq!["<b>Summary of repository addition:</b>"@] + if body.len() == 0 {
        seq!["No valid URLs were processed, or all inputs were empty."@]
    } else {
        body
    }
}

/// The link to a repository, showing its escaped `owner/name`.
pub open spec fn repo_link(repo: RepoEntity) -> Seq<char> {
    html_link(github_repo_url(repo.owner@, repo.name@), html_escaped(repo.name_with_owner@))
}

/// The line of a tracked label in a repository's details.
pub open spec fn label_line(l: LabelNormalized) -> Seq<char> {
    "- "@ + color_emoji(lowercase(l.color@)) + " "@ + html_escaped(l.name@)
}

/// The lines of a repository's details.
pub open spec fn details_lines(repo: RepoEntity, labels: Seq<LabelNormalized>) -> Seq<Seq<char>> {
    seq!["📦 Repository: "@ + repo_link(repo), ""@] + (if labels.len() == 0 {
        seq!["⚠️ No labels are being tracked in this repository."@]
    } else {
        seq!["🏷️ Tracked labels:"@] + labels.map_values(|l: LabelNormalized| label_line(l))
    }) + seq![""@]
}

/// The lines of one repository in the overview.
pub open spec fn overview_repo_lines(repo: RepoEntity, labels: Seq<Seq<char>>) -> Seq<Seq<char>> {
    seq!["📦 <b>Repository:</b> "@ + repo_link(repo)] + (if labels.len() == 0 {
        seq!["⚠️ No labels are being tracked in this repository."@]
    } else {
        seq!["🏷️ <b>Tracked labels:</b>"@] + bullets(labels)
    }) + seq![""@]
}

/// The lines of the overview: a title, a blank line, then each
/// repository in turn.
pub open spec fn overview_lines(o: Seq<(RepoEntity, Vec<String>)>) -> Seq<Seq<char>>
    decreases o.len(),
{
    if o.len() == 0 {
        seq!["📊 Overview of your tracked repositories and labels:"@, ""@]
    } else {
        overview_lines(o.drop_last()) + overview_repo_lines(o.last().0, views(o.last().1@))
    }
}

/// The line of one new issue: its title and URL.
pub open spec fn issue_line(i: IssueNode) -> Seq<char> {
    "- "@ + i.title@ + ": "@ + i.url@
}

/// The message announcing new issues of a repository.
pub open spec fn new_issues_text(repo_name_with_owner: Seq<char>, issues: Seq<IssueNode>) -> Seq<char> {
    "🚨 New issues in "@ + repo_name_with_owner + ":\n\n"@ + join(
        issues.map_values(|i: IssueNode| issue_line(i)),
        "\n"@,
    )
}

/// The answer to a label toggle.
pub open spec fn toggle_label_text(label_name: Seq<char>, is_selected: bool) -> Seq<char> {
    if is_selected {
        "✅ Label "@ + label_name + " has been added."@
    } else {
        "❌ Label "@ + label_name + " has been removed."@
    }
}

fn push_part(parts: &mut Vec<String>, s: String)
    ensures
        views(final(parts)@) == views(old(parts)@).push(s@),
{
    let ghost prev = parts@;
    parts.push(s);
    assert(views(parts@) =~= views(prev).push(s@));
}

fn bullet_string(item: &str) -> (res: String)
    ensures
        res@ == bullet(item@),
{
    String::from_str("- ").concat(escape(item).as_str())
}

fn bullet_list(items: &Vec<String>) -> (res: Vec<String>)
    ensures
        views(res@) == bullets(views(items@)),
{
    let mut lines: Vec<String> = Vec::new();
    let mut i: usize = 0;
    while i < items.len()
        invariant
            i <= items.len(),
            views(lines@) == bullets(views(items@)).take(i as int),
        decreases items.len() - i,
    {
        push_part(&mut lines, bullet_string(items[i].as_str()));
        assert(bullets(views(items@)).take(i + 1) =~= bullets(views(items@)).take(i as int).push(
            bullet(items@[i as int]@),
        ));
        i = i + 1;
    }
    assert(bullets(views(items@)).take(items.len() as int) =~= bullets(views(items@)));
    lines
}

fn category(parts: &mut Vec<String>, title: &str, items: &Vec<String>)
    ensures
        views(final(parts)@) == views(old(parts)@) + summary_category(title@, views(items@)),
{
    if items.len() == 0 {
        assert(views(parts@) =~= views(parts@) + summary_category(title@, views(items@)));
    } else {
        let lines = bullet_list(items);
        let s = String::from_str("<b>").concat(escape(title).as_str()).concat(":</b>\n").concat(
            join_strings(&lines, "\n").as_str(),
        );
        push_part(parts, s);
        assert(views(parts@) =~= views(old(parts)@) + summary_category(title@, views(items@)));
    }
}

fn errors_part(parts: &mut Vec<String>, errors: &Vec<(String, String)>)
    ensures
        views(final(parts)@) == views(old(parts)@) + errors_category(pair_views(errors@)),
{
    let ghost lines_spec = pair_views(errors@).map_values(
        |e: (Seq<char>, Seq<char>)| error_line(e),
    );
    if errors.len() == 0 {
        assert(views(parts@) =~= views(parts@) + errors_category(pair_views(errors@)));
        return;
    }
    let mut lines: Vec<String> = Vec::new();
    let mut i: usize = 0;
    while i < errors.len()
        invariant
            i <= errors.len(),
            lines_spec == pair_views(errors@).map_values(|e: (Seq<char>, Seq<char>)| error_line(e)),
            views(lines@) == lines_spec.take(i as int),
        decreases errors.len() - i,
    {
        let line = String::from_str("- ").concat(escape(errors[i].0.as_str()).as_str()).concat(
            ": ",
        ).concat(escape(errors[i].1.as_str()).as_str());
        push_part(&mut lines, line);
        assert(lines_spec.take(i + 1) =~= lines_spec.take(i as int).push(lines_spec[i as int]));
        i = i + 1;
    }
    assert(lines_spec.take(errors.len() as int) =~= lines_spec);
    let s = String::from_str("❌ <b>Errors:</b>\n").concat(join_strings(&lines, "\n").as_str());
    push_part(parts, s);
    assert(views(parts@) =~= views(old(parts)@) + errors_category(pair_views(errors@)));
}

fn repo_link_string(repo: &RepoEntity) -> (res: String)
    ensures
        res@ == repo_link(*repo),
{
    link(repo.url().as_str(), escape(repo.name_with_owner.as_str()).as_str())
}

impl TelegramMessagingService {
    /// Creates a new `TelegramMessagingService`.
    pub fn new(bot: teloxide::Bot) -> (res: Self)
        ensures
            res.bot == bot,
    {
        TelegramMessagingService { bot }
    }

    /// The text that reports an error to the user: its message, escaped.
    pub fn error_message_text(error: &BotHandlerError) -> (res: String)
        ensures
            res@ == html_escaped(bot_error_text(*error)),
    {
        escape(error.message().as_str())
    }

    /// The text of a paginated message: the title with the page and the
    /// total, or a note that there are no items.
    pub fn format_paginated_message_text<T>(
        title: &str,
        paginated_data: &Paginated<T>,
        item_name_plural: &str,
    ) -> (res: String)
        ensures
            res@ == paginated_text(
                title@,
                paginated_data.page as nat,
                paginated_data.total_pages as nat,
                paginated_data.total_items as nat,
                item_name_plural@,
            ),
    {
        if paginated_data.total_items == 0 {
            return String::from_str(title).concat("\n\nNo ").concat(item_name_plural).concat(
                " found.",
            );
        }
        String::from_str(title).concat(" (Page ").concat(
            usize_to_decimal(paginated_data.page).as_str(),
        ).concat(" of ").concat(usize_to_decimal(paginated_data.total_pages).as_str()).concat(
            ")\nTotal ",
        ).concat(item_name_plural).concat(": ").concat(
            usize_to_decimal(paginated_data.total_items).as_str(),
        )
    }

    /// The summary sent after adding repositories: one paragraph per
    /// outcome that occurred.
    pub fn add_summary_text(summary: &AddSummary) -> (res: String)
        ensures
            res@ == join(summary_parts(*summary), "\n\n"@),
    {
        let mut body: Vec<String> = Vec::new();
        assert(views(body@) =~= Seq::<Seq<char>>::empty());
        category(&mut body, "✅ Successfully Added", &summary.successfully_added);
        assert(views(body@) =~= summary_category(
            "✅ Successfully Added"@,
            views(summary.successfully_added@),
        ));
        category(&mut body, "➡️ Already Tracked", &summary.already_tracked);
        category(&mut body, "❓ Not Found on GitHub", &summary.not_found);
        category(&mut body, "⚠️ Invalid URL", &summary.invalid_urls);
        errors_part(&mut body, &summary.errors);
        let mut parts: Vec<String> = Vec::new();
        push_part(&mut parts, String::from_str("<b>Summary of repository addition:</b>"));
        if body.len() == 0 {
            push_part(
                &mut parts,
                String::from_str("No valid URLs were processed, or all inputs were empty."),
            );
        } else {
            let ghost head = parts@;
            let ghost tail = body@;
            parts.append(&mut body);
            assert(views(parts@) =~= views(head) + views(tail));
        }
        assert(views(parts@) =~= summary_parts(*summary));
        join_strings(&parts, "\n\n")
    }

    /// The details of a repository: its link and its tracked labels.
    pub fn details_text(repo: &RepoEntity, labels: &[LabelNormalized]) -> (res: String)
        ensures
            res@ == join(details_lines(*repo, labels@), "\n"@),
    {
        let mut parts: Vec<String> = Vec::new();
        push_part(&mut parts, String::from_str("📦 Repository: ").concat(repo_link_string(repo).as_str()));
        push_part(&mut parts, String::from_str(""));
        let ghost head = views(parts@);
        if labels.len() == 0 {
            push_part(
                &mut parts,
                String::from_str("⚠️ No labels are being tracked in this repository."),
            );
        } else {
            push_part(&mut parts, String::from_str("🏷️ Tracked labels:"));
            let ghost lines = labels@.map_values(|l: LabelNormalized| label_line(l));
            let ghost start = views(parts@);
            let mut i: usize = 0;
            while i < labels.len()
                invariant
                    i <= labels.len(),
                    lines == labels@.map_values(|l: LabelNormalized| label_line(l)),
                    views(parts@) == start + lines.take(i as int),
                decreases labels.len() - i,
            {
                let line = String::from_str("- ").concat(
                    github_color_to_emoji(labels[i].color.as_str()),
                ).concat(" ").concat(escape(labels[i].name.as_str()).as_str());
                push_part(&mut parts, line);
                assert(lines.take(i + 1) =~= lines.take(i as int).push(lines[i as int]));
                i = i + 1;
            }
            assert(lines.take(labels.len() as int) =~= lines);
        }
        push_part(&mut parts, String::from_str(""));
        assert(views(parts@) =~= details_lines(*repo, labels@));
        join_strings(&parts, "\n")
    }

    /// The overview of tracked repositories and their labels.
    pub fn overview_text(overview: &Vec<(RepoEntity, Vec<String>)>) -> (res: String)
        ensures
            res@ == join(overview_lines(overview@), "\n"@),
    {
        let mut parts: Vec<String> = Vec::new();
        push_part(
            &mut parts,
            String::from_str("📊 Overview of your tracked repositories and labels:"),
        );
        push_part(&mut parts, String::from_str(""));
        assert(views(parts@) =~= overview_lines(overview@.take(0)));
        let mut i: usize = 0;
        while i < overview.len()
            invariant
                i <= overview.len(),
                views(parts@) == overview_lines(overview@.take(i as int)),
            decreases overview.len() - i,
        {
            let ghost before = views(parts@);
            let repo = &overview[i].0;
            let labels = &overview[i].1;
            push_part(
                &mut parts,
                String::from_str("📦 <b>Repository:</b> ").concat(repo_link_string(repo).as_str()),
            );
            if labels.len() == 0 {
                push_part(
                    &mut parts,
                    String::from_str("⚠️ No labels are being tracked in this repository."),
                );
            } else {
                push_part(&mut parts, String::from_str("🏷️ <b>Tracked labels:</b>"));
                let mut lines = bullet_list(labels);
                let ghost mid = parts@;
                let ghost tail = lines@;
                parts.append(&mut lines);
                assert(views(parts@) =~= views(mid) + views(tail));
            }
            push_part(&mut parts, String::from_str(""));
            assert(overview@.take(i + 1).drop_last() =~= overview@.take(i as int));
            assert(views(parts@) =~= before + overview_repo_lines(*repo, views(labels@)));
            i = i + 1;
        }
        assert(overview@.take(overview.len() as int) =~= overview@);
        join_strings(&parts, "\n")
    }

    /// The message announcing new issues of a repository.
    pub fn new_issues_message(repo_name_with_owner: &str, issues: &Vec<IssueNode>) -> (res: String)
        ensures
            res@ == new_issues_text(repo_name_with_owner@, issues@),
    {
        let ghost lines_spec = issues@.map_values(|i: IssueNode| issue_line(i));
        let mut lines: Vec<String> = Vec::new();
        let mut i: usize = 0;
        while i < issues.len()
            invariant
                i <= issues.len(),
                lines_spec == issues@.map_values(|i: IssueNode| issue_line(i)),
                views(lines@) == lines_spec.take(i as int),
            decreases issues.len() - i,
        {
            let line = String::from_str("- ").concat(issues[i].title.as_str()).concat(": ").concat(
                issues[i].url.as_str(),
            );
            push_part(&mut lines, line);
            assert(lines_spec.take(i + 1) =~= lines_spec.take(i as int).push(lines_spec[i as int]));
            i = i + 1;
        }
        assert(lines_spec.take(issues.len() as int) =~= lines_spec);
        String::from_str("🚨 New issues in ").concat(repo_name_with_owner).concat(":\n\n").concat(
            join_strings(&lines, "\n").as_str(),
        )
    }

    /// The answer to a label toggle.
    pub fn toggle_label_message(label_name: &str, is_selected: bool) -> (res: String)
        ensures
            res@ == toggle_label_text(label_name@, is_selected),
    {
        if is_selected {
            String::from_str("✅ Label ").concat(label_name).concat(" has been added.")
        } else {
            String::from_str("❌ Label ").concat(label_name).concat(" has been removed.")
        }
    }

    /// The answer to a removal request.
    pub fn remove_answer_text(removed: bool) -> (res: &'static str)
        ensures
            res@ == if removed {
                "✅ Repository removed successfully."@
            } else {
                "❌ Repository not found."@
            },
    {
        if removed {
            "✅ Repository removed successfully."
        } else {
            "❌ Repository not found."
        }
    }

    /// The text above a repository's label keyboard.
    pub fn labels_message_text(
        paginated_labels: &Paginated<LabelNormalized>,
        repo_name_with_owner: &str,
    ) -> (res: String)
        ensures
            res@ == paginated_text(
                "🏷️ Manage labels for "@ + html_escaped(repo_name_with_owner@) + ":"@,
                paginated_labels.page as nat,
                paginated_labels.total_pages as nat,
                paginated_labels.total_items as nat,
                "labels"@,
            ),
    {
        let title = String::from_str("🏷️ Manage labels for ").concat(
            escape(repo_name_with_owner).as_str(),
        ).concat(":");
        Self::format_paginated_message_text(title.as_str(), paginated_labels, "labels")
    }

    /// The text of the repository list.
    pub fn list_message_text(paginated_repos: &Paginated<RepoEntity>) -> (res: String)
        ensures
            res@ == paginated_text(
                "🔍 Your tracked repositories:"@,
                paginated_repos.page as nat,
                paginated_repos.total_pages as nat,
                paginated_repos.total_items as nat,
                "repositories"@,
            ),
    {
        Self::format_paginated_message_text(
            "🔍 Your tracked repositories:",
            paginated_repos,
            "repositories",
        )
    }

    /// The text shown when the labels message is edited after a toggle.
    pub fn edit_labels_text(paginated_labels: &Paginated<LabelNormalized>) -> (res: &'static str)
        ensures
            res@ == if paginated_labels.items@.len() == 0 {
                "⚠️ No labels available for this repository."@
            } else {
                "🏷️ Manage repository labels:"@
            },
    {
        if paginated_labels.items.len() == 0 {
            "⚠️ No labels available for this repository."
        } else {
            "🏷️ Manage repository labels:"
        }
    }
}

/// The details of a repository list every tracked label, in order: after
/// the repository line (its link, whose shown name is escaped once by the
/// details and once more by the link), a blank line and the heading come exactly one line
/// per label, `- `, its colour's emoji, a space and its escaped name, and a
/// closing blank line; with no label, the one line says that none is
/// tracked.
pub proof fn law_details_list_every_label(repo: RepoEntity, labels: Seq<LabelNormalized>)
    ensures
        details_lines(repo, labels)[0] == "📦 Repository: "@ + "<a href=\""@ + html_escaped(
            github_repo_url(repo.owner@, repo.name@),
        ) + "\">"@ + html_escaped(html_escaped(repo.name_with_owner@)) + "</a>"@,
        details_lines(repo, labels)[1] == ""@,
        details_lines(repo, labels).last() == ""@,
        labels.len() == 0 ==> details_lines(repo, labels).len() == 4 && details_lines(repo, labels)[2]
            == "⚠️ No labels are being tracked in this repository."@,
        labels.len() > 0 ==> details_lines(repo, labels).len() == labels.len() + 4
            && details_lines(repo, labels)[2] == "🏷️ Tracked labels:"@,
        labels.len() > 0 ==> forall|k: int|
            #![trigger labels[k]]
            0 <= k < labels.len() ==> details_lines(repo, labels)[k + 3] == "- "@ + color_emoji(
                lowercase(labels[k].color@),
            ) + " "@ + html_escaped(labels[k].name@),
{
    assert("📦 Repository: "@ + repo_link(repo) =~= "📦 Repository: "@ + "<a href=\""@ + html_escaped(
        github_repo_url(repo.owner@, repo.name@),
    ) + "\">"@ + html_escaped(html_escaped(repo.name_with_owner@)) + "</a>"@);
    if labels.len() > 0 {
        let lines = labels.map_values(|l: LabelNormalized| label_line(l));
        let all = seq!["📦 Repository: "@ + repo_link(repo), ""@] + (seq!["🏷️ Tracked labels:"@] + lines)
            + seq![""@];
        assert(details_lines(repo, labels) == all);
        assert forall|k: int| #![trigger labels[k]] 0 <= k < labels.len() implies all[k + 3]
            == "- "@ + color_emoji(lowercase(labels[k].color@)) + " "@ + html_escaped(labels[k].name@) by {
            assert(all[k + 3] == lines[k]);
        }
    }
}

} // verus!

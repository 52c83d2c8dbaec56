//! The server's pages, as HTML.
use crate::client::html::{onclick_event, spec_onclick_event};
use crate::markup::{card, escape_html, spec_card, spec_escape_html};
use crate::poll::{status_label, PollStatus};
use crate::web::{flash_class, spec_flash_class};
use vstd::prelude::*;

verus! {

/// The dialogs of the session page: adding a member or a poll, a member, a poll (with its pending, active and complete sections), the profile and the session.
pub open spec fn spec_modals() -> Seq<char> {
    "<div id=\"add-member-modal\" uk-modal><div class=\"uk-modal-dialog uk-modal-body\"><h2 class=\"uk-modal-title\">Add Member</h2>I'm working on it, for now just copy/paste the url<p class=\"uk-text-right\"><button class=\"uk-button uk-button-default uk-modal-close\" type=\"button\">Cancel</button></p></div></div><div id=\"add-poll-modal\" uk-modal><div class=\"uk-modal-dialog uk-modal-body\"><h2 class=\"uk-modal-title\">Add Poll</h2><input class=\"uk-input\" id=\"poll-modal-input\" type=\"text\" placeholder=\"Poll Question\" name=\"poll\"></input><p class=\"uk-text-right\"><button class=\"uk-button uk-button-default uk-modal-close\" type=\"button\">Cancel</button><button class=\"uk-button uk-button-primary uk-modal-close\" type=\"button\" onclick=\""@ + spec_escape_html(spec_onclick_event("submit-poll"@, ""@, "document.getElementById('poll-modal-input').value"@)) + "\">Add Poll</button></p></div></div><div id=\"member-detail-modal\" uk-modal><div class=\"uk-modal-dialog uk-modal-body\"><h2 class=\"uk-modal-title\" id=\"member-detail-name\">...</h2><div id=\"member-detail-content\">...</div><p class=\"uk-text-right\"><button class=\"uk-button uk-button-default uk-modal-close\" type=\"button\">Close</button></p></div></div><div class=\"uk-modal-container\" id=\"poll-detail-modal\" uk-modal><div class=\"uk-modal-dialog uk-modal-body\"><h2 class=\"uk-modal-title\" id=\"poll-detail-title\">...</h2><div id=\"poll-detail-content\"><input id=\"active-poll-id\" type=\"hidden\"></input><div class=\"poll-section\" id=\"poll-section-pending\"><h5>Poll is pending</h5><div class=\"uk-margin-top\"><button class=\"uk-button uk-button-default\" id=\"poll-reset-button\" onclick=\""@ + spec_escape_html(spec_onclick_event("delete-poll"@, ""@, ""@)) + "\">Delete Poll</button> <button class=\"uk-button uk-button-primary\" id=\"poll-start-button\" onclick=\""@ + spec_escape_html(spec_onclick_event("set-poll-status"@, status_label(PollStatus::Active), ""@)) + "\">Start Voting</button></div></div><div class=\"poll-section\" id=\"poll-section-active\"><h5>Poll is active</h5><h4>Vote Status</h4><div id=\"poll-vote-status\"></div><h4>Your Vote</h4><div id=\"poll-vote-choices\">TODO</div><div class=\"uk-margin-top\"><button class=\"uk-button uk-button-default\" id=\"poll-reset-button\" onclick=\""@ + spec_escape_html(spec_onclick_event("set-poll-status"@, status_label(PollStatus::Pending), ""@)) + "\">Clear Votes</button> <button class=\"uk-button uk-button-primary\" id=\"poll-complete-button\" onclick=\""@ + spec_escape_html(spec_onclick_event("set-poll-status"@, status_label(PollStatus::Complete), ""@)) + "\">Finish Voting</button></div></div><div class=\"poll-section\" id=\"poll-section-complete\"><h5>Poll is complete</h5><h4>Results</h4><div id=\"poll-complete-summary\"></div><h4>Stats</h4><div id=\"poll-complete-stats\"></div><div class=\"uk-margin-top\"><button class=\"uk-button uk-button-default\" id=\"poll-reopen-button\" onclick=\""@ + spec_escape_html(spec_onclick_event("set-poll-status"@, status_label(PollStatus::Active), ""@)) + "\">Reopen Voting</button></div></div></div><p class=\"uk-text-right\"><button class=\"uk-button uk-button-default uk-modal-close\" type=\"button\">Close</button></p></div></div><div id=\"profile-detail-modal\" uk-modal><div class=\"uk-modal-dialog uk-modal-body\"><h2 class=\"uk-modal-title\">Edit Profile</h2><input class=\"uk-input\" id=\"profile-detail-modal-input\" type=\"text\" placeholder=\"Name\" name=\"name\"></input><p class=\"uk-text-right\"><button class=\"uk-button uk-button-default uk-modal-close\" type=\"button\">Cancel</button><button class=\"uk-button uk-button-primary uk-modal-close\" type=\"button\" onclick=\""@ + spec_escape_html(spec_onclick_event("update-profile"@, ""@, "document.getElementById('profile-detail-modal-input').value"@)) + "\">Change Name</button></p></div></div><div id=\"session-detail-modal\" uk-modal><div class=\"uk-modal-dialog uk-modal-body\"><h2 class=\"uk-modal-title\">Edit Session</h2><input class=\"uk-input\" id=\"session-detail-modal-input\" type=\"text\" placeholder=\"Name\" name=\"name\"></input><p class=\"uk-text-right\"><button class=\"uk-button uk-button-default uk-modal-close\" type=\"button\">Cancel</button><button class=\"uk-button uk-button-primary uk-modal-close\" type=\"button\" onclick=\""@ + spec_escape_html(spec_onclick_event("update-session"@, ""@, "document.getElementById('session-detail-modal-input').value"@)) + "\">Change Name</button></p></div></div>"@
}

/// The dialogs of the session page: adding a member or a poll, a member, a poll (with its pending, active and complete sections), the profile and the session.
pub fn modals() -> (r: String)
    ensures
        r@ == spec_modals(),
{
    let mut r = "<div id=\"add-member-modal\" uk-modal><div class=\"uk-modal-dialog uk-modal-body\"><h2 class=\"uk-modal-title\">Add Member</h2>I'm working on it, for now just copy/paste the url<p class=\"uk-text-right\"><button class=\"uk-button uk-button-default uk-modal-close\" type=\"button\">Cancel</button></p></div></div><div id=\"add-poll-modal\" uk-modal><div class=\"uk-modal-dialog uk-modal-body\"><h2 class=\"uk-modal-title\">Add Poll</h2><input class=\"uk-input\" id=\"poll-modal-input\" type=\"text\" placeholder=\"Poll Question\" name=\"poll\"></input><p class=\"uk-text-right\"><button class=\"uk-button uk-button-default uk-modal-close\" type=\"button\">Cancel</button><button class=\"uk-button uk-button-primary uk-modal-close\" type=\"button\" onclick=\"".to_owned();
    let part1 = escape_html(onclick_event("submit-poll", "", "document.getElementById('poll-modal-input').value").as_str());
    r.append(part1.as_str());
    r.append("\">Add Poll</button></p></div></div><div id=\"member-detail-modal\" uk-modal><div class=\"uk-modal-dialog uk-modal-body\"><h2 class=\"uk-modal-title\" id=\"member-detail-name\">...</h2><div id=\"member-detail-content\">...</div><p class=\"uk-text-right\"><button class=\"uk-button uk-button-default uk-modal-close\" type=\"button\">Close</button></p></div></div><div class=\"uk-modal-container\" id=\"poll-detail-modal\" uk-modal><div class=\"uk-modal-dialog uk-modal-body\"><h2 class=\"uk-modal-title\" id=\"poll-detail-title\">...</h2><div id=\"poll-detail-content\"><input id=\"active-poll-id\" type=\"hidden\"></input><div class=\"poll-section\" id=\"poll-section-pending\"><h5>Poll is pending</h5><div class=\"uk-margin-top\"><button class=\"uk-button uk-button-default\" id=\"poll-reset-button\" onclick=\"");
    let part2 = escape_html(onclick_event("delete-poll", "", "").as_str());
    r.append(part2.as_str());
    r.append("\">Delete Poll</button> <button class=\"uk-button uk-button-primary\" id=\"poll-start-button\" onclick=\"");
    let part3 = escape_html(onclick_event("set-poll-status", PollStatus::Active.to_string().as_str(), "").as_str());
    r.append(part3.as_str());
    r.append("\">Start Voting</button></div></div><div class=\"poll-section\" id=\"poll-section-active\"><h5>Poll is active</h5><h4>Vote Status</h4><div id=\"poll-vote-status\"></div><h4>Your Vote</h4><div id=\"poll-vote-choices\">TODO</div><div class=\"uk-margin-top\"><button class=\"uk-button uk-button-default\" id=\"poll-reset-button\" onclick=\"");
    let part4 = escape_html(onclick_event("set-poll-status", PollStatus::Pending.to_string().as_str(), "").as_str());
    r.append(part4.as_str());
    r.append("\">Clear Votes</button> <button class=\"uk-button uk-button-primary\" id=\"poll-complete-button\" onclick=\"");
    let part5 = escape_html(onclick_event("set-poll-status", PollStatus::Complete.to_string().as_str(), "").as_str());
    r.append(part5.as_str());
    r.append("\">Finish Voting</button></div></div><div class=\"poll-section\" id=\"poll-section-complete\"><h5>Poll is complete</h5><h4>Results</h4><div id=\"poll-complete-summary\"></div><h4>Stats</h4><div id=\"poll-complete-stats\"></div><div class=\"uk-margin-top\"><button class=\"uk-button uk-button-default\" id=\"poll-reopen-button\" onclick=\"");
    let part6 = escape_html(onclick_event("set-poll-status", PollStatus::Active.to_string().as_str(), "").as_str());
    r.append(part6.as_str());
    r.append("\">Reopen Voting</button></div></div></div><p class=\"uk-text-right\"><button class=\"uk-button uk-button-default uk-modal-close\" type=\"button\">Close</button></p></div></div><div id=\"profile-detail-modal\" uk-modal><div class=\"uk-modal-dialog uk-modal-body\"><h2 class=\"uk-modal-title\">Edit Profile</h2><input class=\"uk-input\" id=\"profile-detail-modal-input\" type=\"text\" placeholder=\"Name\" name=\"name\"></input><p class=\"uk-text-right\"><button class=\"uk-button uk-button-default uk-modal-close\" type=\"button\">Cancel</button><button class=\"uk-button uk-button-primary uk-modal-close\" type=\"button\" onclick=\"");
    let part7 = escape_html(onclick_event("update-profile", "", "document.getElementById('profile-detail-modal-input').value").as_str());
    r.append(part7.as_str());
    r.append("\">Change Name</button></p></div></div><div id=\"session-detail-modal\" uk-modal><div class=\"uk-modal-dialog uk-modal-body\"><h2 class=\"uk-modal-title\">Edit Session</h2><input class=\"uk-input\" id=\"session-detail-modal-input\" type=\"text\" placeholder=\"Name\" name=\"name\"></input><p class=\"uk-text-right\"><button class=\"uk-button uk-button-default uk-modal-close\" type=\"button\">Cancel</button><button class=\"uk-button uk-button-primary uk-modal-close\" type=\"button\" onclick=\"");
    let part8 = escape_html(onclick_event("update-session", "", "document.getElementById('session-detail-modal-input').value").as_str());
    r.append(part8.as_str());
    r.append("\">Change Name</button></p></div></div>");
    r
}

/// The content of the card with the user's name.
pub open spec fn spec_detail_profile_card(profile_name: Seq<char>, link_class: Seq<char>) -> Seq<char> {
    "<h3 class=\"left nomargin\" id=\"profile-name-label\">"@ + spec_escape_html(profile_name) + "</h3><div class=\"right\"><a class=\""@ + spec_escape_html(link_class) + "\" href=\"\" onclick=\""@ + spec_escape_html(spec_onclick_event("profile-detail"@, ""@, ""@)) + "\" title=\"Change Name\"><span data-uk-icon=\"icon: cog\"></span></a></div>"@
}

/// The content of the card with the user's name.
fn detail_profile_card(profile_name: &str, link_class: &str) -> (r: String)
    ensures
        r@ == spec_detail_profile_card(profile_name@, link_class@),
{
    let mut r = "<h3 class=\"left nomargin\" id=\"profile-name-label\">".to_owned();
    let part1 = escape_html(profile_name);
    r.append(part1.as_str());
    r.append("</h3><div class=\"right\"><a class=\"");
    let part2 = escape_html(link_class);
    r.append(part2.as_str());
    r.append("\" href=\"\" onclick=\"");
    let part3 = escape_html(onclick_event("profile-detail", "", "").as_str());
    r.append(part3.as_str());
    r.append("\" title=\"Change Name\"><span data-uk-icon=\"icon: cog\"></span></a></div>");
    r
}

/// The content of the card with the session's title.
pub open spec fn spec_detail_session_card(title: Seq<char>, link_class: Seq<char>) -> Seq<char> {
    "<h3 class=\"left nomargin\" id=\"session-name-label\">"@ + spec_escape_html(title) + "</h3><div class=\"right\"><a class=\""@ + spec_escape_html(link_class) + "\" href=\"\" onclick=\""@ + spec_escape_html(spec_onclick_event("session-detail"@, ""@, ""@)) + "\" title=\"Edit Title\"><span data-uk-icon=\"icon: cog\"></span></a></div>"@
}

/// The content of the card with the session's title.
fn detail_session_card(title: &str, link_class: &str) -> (r: String)
    ensures
        r@ == spec_detail_session_card(title@, link_class@),
{
    let mut r = "<h3 class=\"left nomargin\" id=\"session-name-label\">".to_owned();
    let part1 = escape_html(title);
    r.append(part1.as_str());
    r.append("</h3><div class=\"right\"><a class=\"");
    let part2 = escape_html(link_class);
    r.append(part2.as_str());
    r.append("\" href=\"\" onclick=\"");
    let part3 = escape_html(onclick_event("session-detail", "", "").as_str());
    r.append(part3.as_str());
    r.append("\" title=\"Edit Title\"><span data-uk-icon=\"icon: cog\"></span></a></div>");
    r
}

/// The content of the card listing the members.
pub open spec fn spec_detail_members_card(link_class: Seq<char>) -> Seq<char> {
    "<h4>Other Members</h4><ul id=\"member-listing\"><li>Loading members...</li></ul><a class=\""@ + spec_escape_html(link_class) + "\" uk-toggle href=\"#add-member-modal\">Invite Members</a>"@
}

/// The content of the card listing the members.
fn detail_members_card(link_class: &str) -> (r: String)
    ensures
        r@ == spec_detail_members_card(link_class@),
{
    let mut r = "<h4>Other Members</h4><ul id=\"member-listing\"><li>Loading members...</li></ul><a class=\"".to_owned();
    let part1 = escape_html(link_class);
    r.append(part1.as_str());
    r.append("\" uk-toggle href=\"#add-member-modal\">Invite Members</a>");
    r
}

/// The content of the card listing the polls.
pub open spec fn spec_detail_polls_card(link_class: Seq<char>) -> Seq<char> {
    "<h4>Estimates, Polls, Stories, Whatever</h4><ul id=\"poll-listing\"><li>Loading polls...</li></ul><a class=\""@ + spec_escape_html(link_class) + "\" uk-toggle onclick=\"document.getElementById('poll-modal-input').value = '';\" href=\"#add-poll-modal\">Add Poll</a>"@
}

/// The content of the card listing the polls.
fn detail_polls_card(link_class: &str) -> (r: String)
    ensures
        r@ == spec_detail_polls_card(link_class@),
{
    let mut r = "<h4>Estimates, Polls, Stories, Whatever</h4><ul id=\"poll-listing\"><li>Loading polls...</li></ul><a class=\"".to_owned();
    let part1 = escape_html(link_class);
    r.append(part1.as_str());
    r.append("\" uk-toggle onclick=\"document.getElementById('poll-modal-input').value = '';\" href=\"#add-poll-modal\">Add Poll</a>");
    r
}

/// The card that shows the WebSocket connection and pings it.
pub open spec fn spec_socket(card_class: Seq<char>, link_class: Seq<char>) -> Seq<char> {
    spec_card(card_class, spec_socket_content(link_class))
}

/// The card that shows the WebSocket connection and pings it.
pub fn socket(card_class: &str, link_class: &str) -> (r: String)
    ensures
        r@ == spec_socket(card_class@, link_class@),
{
    let mut r = card(card_class, socket_content(link_class).as_str());
    r
}

/// The content of the WebSocket card.
pub open spec fn spec_socket_content(link_class: Seq<char>) -> Seq<char> {
    "<h4>WebSocket</h4><div><a class=\""@ + spec_escape_html(link_class) + "\" href=\"\" onclick=\""@ + spec_escape_html(spec_onclick_event("send-ping"@, ""@, ""@)) + "\">Send Ping</a></div><div id=\"socket-status\">Connecting...</div><div class=\"uk-margin-top\" id=\"socket-results\"></div>"@
}

/// The content of the WebSocket card.
fn socket_content(link_class: &str) -> (r: String)
    ensures
        r@ == spec_socket_content(link_class@),
{
    let mut r = "<h4>WebSocket</h4><div><a class=\"".to_owned();
    let part1 = escape_html(link_class);
    r.append(part1.as_str());
    r.append("\" href=\"\" onclick=\"");
    let part2 = escape_html(onclick_event("send-ping", "", "").as_str());
    r.append(part2.as_str());
    r.append("\">Send Ping</a></div><div id=\"socket-status\">Connecting...</div><div class=\"uk-margin-top\" id=\"socket-results\"></div>");
    r
}

/// The session page: cards with the user's name, the session's title, the members, the polls and the connection, then the dialogs and the client script at `client_js`.
pub open spec fn spec_session_detail(card_class: Seq<char>, link_class: Seq<char>, profile_name: Seq<char>, title: Seq<char>, client_js: Seq<char>) -> Seq<char> {
    "<div class=\"uk-container\"><div class=\"uk-margin-top uk-grid-small\" uk-grid><div class=\"uk-width-1-3\">"@ + spec_card(card_class, spec_detail_profile_card(profile_name, link_class)) + "</div><div class=\"uk-width-2-3\">"@ + spec_card(card_class, spec_detail_session_card(title, link_class)) + "</div><div class=\"uk-width-1-3\">"@ + spec_card(card_class, spec_detail_members_card(link_class)) + "</div><div class=\"uk-width-2-3\">"@ + spec_card(card_class, spec_detail_polls_card(link_class)) + "</div><div class=\"uk-width-1-1\">"@ + spec_socket(card_class, link_class) + "</div></div></div>"@ + spec_modals() + "<script src=\""@ + spec_escape_html(client_js) + "\" defer></script>"@
}

/// The session page: cards with the user's name, the session's title, the members, the polls and the connection, then the dialogs and the client script at `client_js`.
pub fn session_detail(card_class: &str, link_class: &str, profile_name: &str, title: &str, client_js: &str) -> (r: String)
    ensures
        r@ == spec_session_detail(card_class@, link_class@, profile_name@, title@, client_js@),
{
    let mut r = "<div class=\"uk-container\"><div class=\"uk-margin-top uk-grid-small\" uk-grid><div class=\"uk-width-1-3\">".to_owned();
    let part1 = card(card_class, detail_profile_card(profile_name, link_class).as_str());
    r.append(part1.as_str());
    r.append("</div><div class=\"uk-width-2-3\">");
    let part2 = card(card_class, detail_session_card(title, link_class).as_str());
    r.append(part2.as_str());
    r.append("</div><div class=\"uk-width-1-3\">");
    let part3 = card(card_class, detail_members_card(link_class).as_str());
    r.append(part3.as_str());
    r.append("</div><div class=\"uk-width-2-3\">");
    let part4 = card(card_class, detail_polls_card(link_class).as_str());
    r.append(part4.as_str());
    r.append("</div><div class=\"uk-width-1-1\">");
    let part5 = socket(card_class, link_class);
    r.append(part5.as_str());
    r.append("</div></div></div>");
    let part6 = modals();
    r.append(part6.as_str());
    r.append("<script src=\"");
    let part7 = escape_html(client_js);
    r.append(part7.as_str());
    r.append("\" defer></script>");
    r
}

/// The forms that create a session and join one, sent to `create_action` and `join_action`.
pub open spec fn spec_session_form(card_class: Seq<char>, create_action: Seq<char>, join_action: Seq<char>) -> Seq<char> {
    "<div><form action=\""@ + spec_escape_html(create_action) + "\" method=\"get\">"@ + spec_card(card_class, "<h4>Create Session</h4><input class=\"uk-input\" type=\"text\" placeholder=\"Title\" name=\"key\"></input><button class=\"uk-button uk-button-default\" type=\"submit\">Create Session</button>"@) + "</form></div><div><form action=\""@ + spec_escape_html(join_action) + "\" method=\"get\">"@ + spec_card(card_class, "<h4>Join Session</h4><input class=\"uk-input\" type=\"text\" placeholder=\"Title\" name=\"key\"></input><button class=\"uk-button uk-button-default\" type=\"submit\">Join Session</button>"@) + "</form></div>"@
}

/// The forms that create a session and join one, sent to `create_action` and `join_action`.
pub fn session_form(card_class: &str, create_action: &str, join_action: &str) -> (r: String)
    ensures
        r@ == spec_session_form(card_class@, create_action@, join_action@),
{
    let mut r = "<div><form action=\"".to_owned();
    let part1 = escape_html(create_action);
    r.append(part1.as_str());
    r.append("\" method=\"get\">");
    let part2 = card(card_class, "<h4>Create Session</h4><input class=\"uk-input\" type=\"text\" placeholder=\"Title\" name=\"key\"></input><button class=\"uk-button uk-button-default\" type=\"submit\">Create Session</button>");
    r.append(part2.as_str());
    r.append("</form></div><div><form action=\"");
    let part3 = escape_html(join_action);
    r.append(part3.as_str());
    r.append("\" method=\"get\">");
    let part4 = card(card_class, "<h4>Join Session</h4><input class=\"uk-input\" type=\"text\" placeholder=\"Title\" name=\"key\"></input><button class=\"uk-button uk-button-default\" type=\"submit\">Join Session</button>");
    r.append(part4.as_str());
    r.append("</form></div>");
    r
}

/// The table of test pages, the i-th linking to `routes[i]`.
pub open spec fn spec_testbed_rows(link_class: Seq<char>, routes: Seq<Seq<char>>) -> Seq<char> {
    "<h4>Testbeds</h4><table class=\"uk-table uk-table-divider\"><tbody><tr><td><a class=\""@ + spec_escape_html(link_class) + "\" href=\""@ + spec_escape_html(routes[0]) + "\">Dump</a></td><td>Displays a bunch of info about the app</td></tr><tr><td><a class=\""@ + spec_escape_html(link_class) + "\" href=\""@ + spec_escape_html(routes[1]) + "\">Gallery</a></td><td>Tests front-end components</td></tr><tr><td><a class=\""@ + spec_escape_html(link_class) + "\" href=\""@ + spec_escape_html(routes[2]) + "\">Prototype</a></td><td>A sandbox to play around in</td></tr><tr><td><a class=\""@ + spec_escape_html(link_class) + "\" href=\""@ + spec_escape_html(routes[3]) + "\">Scroll</a></td><td>Scrolling test</td></tr><tr><td><a class=\""@ + spec_escape_html(link_class) + "\" href=\""@ + spec_escape_html(routes[4]) + "\">Crash</a></td><td>Simulates a server error</td></tr></tbody></table>"@
}

/// The table of test pages, the i-th linking to `routes[i]`.
fn testbed_rows(link_class: &str, routes: &Vec<String>) -> (r: String)
    requires
        routes.len() == 5,
    ensures
        r@ == spec_testbed_rows(link_class@, routes.deep_view()),
{
    let mut r = "<h4>Testbeds</h4><table class=\"uk-table uk-table-divider\"><tbody><tr><td><a class=\"".to_owned();
    let part1 = escape_html(link_class);
    r.append(part1.as_str());
    r.append("\" href=\"");
    let part2 = escape_html(routes[0].as_str());
    r.append(part2.as_str());
    r.append("\">Dump</a></td><td>Displays a bunch of info about the app</td></tr><tr><td><a class=\"");
    let part3 = escape_html(link_class);
    r.append(part3.as_str());
    r.append("\" href=\"");
    let part4 = escape_html(routes[1].as_str());
    r.append(part4.as_str());
    r.append("\">Gallery</a></td><td>Tests front-end components</td></tr><tr><td><a class=\"");
    let part5 = escape_html(link_class);
    r.append(part5.as_str());
    r.append("\" href=\"");
    let part6 = escape_html(routes[2].as_str());
    r.append(part6.as_str());
    r.append("\">Prototype</a></td><td>A sandbox to play around in</td></tr><tr><td><a class=\"");
    let part7 = escape_html(link_class);
    r.append(part7.as_str());
    r.append("\" href=\"");
    let part8 = escape_html(routes[3].as_str());
    r.append(part8.as_str());
    r.append("\">Scroll</a></td><td>Scrolling test</td></tr><tr><td><a class=\"");
    let part9 = escape_html(link_class);
    r.append(part9.as_str());
    r.append("\" href=\"");
    let part10 = escape_html(routes[4].as_str());
    r.append(part10.as_str());
    r.append("\">Crash</a></td><td>Simulates a server error</td></tr></tbody></table>");
    r
}

/// The card listing the test pages (Dump, Gallery, Prototype, Scroll, Crash), the i-th linking to `routes[i]`, the route of the i-th key of `testbed_list`.
pub open spec fn spec_testbed_table(card_class: Seq<char>, link_class: Seq<char>, routes: Seq<Seq<char>>) -> Seq<char> {
    spec_card(card_class, spec_testbed_rows(link_class, routes))
}

/// The card listing the test pages (Dump, Gallery, Prototype, Scroll, Crash), the i-th linking to `routes[i]`, the route of the i-th key of `testbed_list`.
pub fn testbed_table(card_class: &str, link_class: &str, routes: &Vec<String>) -> (r: String)
    requires
        routes.len() == 5,
    ensures
        r@ == spec_testbed_table(card_class@, link_class@, routes.deep_view()),
{
    let mut r = card(card_class, testbed_rows(link_class, routes).as_str());
    r
}

/// The home page's content: the welcome, the session forms and the test pages.
pub open spec fn spec_index_content(card_class: Seq<char>, link_class: Seq<char>, create_action: Seq<char>, join_action: Seq<char>, routes: Seq<Seq<char>>) -> Seq<char> {
    "<div class=\"uk-text-center\"><h1 class=\"uk-heading-hero\">Welcome to rustimate</h1></div>"@ + spec_session_form(card_class, create_action, join_action) + spec_testbed_table(card_class, link_class, routes)
}

/// The home page's content: the welcome, the session forms and the test pages.
pub fn index_content(card_class: &str, link_class: &str, create_action: &str, join_action: &str, routes: &Vec<String>) -> (r: String)
    requires
        routes.len() == 5,
    ensures
        r@ == spec_index_content(card_class@, link_class@, create_action@, join_action@, routes.deep_view()),
{
    let mut r = "<div class=\"uk-text-center\"><h1 class=\"uk-heading-hero\">Welcome to rustimate</h1></div>".to_owned();
    let part1 = session_form(card_class, create_action, join_action);
    r.append(part1.as_str());
    let part2 = testbed_table(card_class, link_class, routes);
    r.append(part2.as_str());
    r
}

/// A flash message of kind `k` saying `v`, in the alert style of its kind.
pub open spec fn spec_flash(k: Seq<char>, v: Seq<char>) -> Seq<char> {
    "<div class=\"alert-top "@ + spec_escape_html(spec_flash_class(k)) + "\" data-uk-alert><a class=\"uk-alert-close\" href=\"#\" data-uk-close=\"\"></a><p>"@ + spec_escape_html(v) + "</p></div>"@
}

/// A flash message of kind `k` saying `v`, in the alert style of its kind.
pub fn flash(k: &str, v: &str) -> (r: String)
    ensures
        r@ == spec_flash(k@, v@),
{
    let mut r = "<div class=\"alert-top ".to_owned();
    let part1 = escape_html(flash_class(k));
    r.append(part1.as_str());
    r.append("\" data-uk-alert><a class=\"uk-alert-close\" href=\"#\" data-uk-close=\"\"></a><p>");
    let part2 = escape_html(v);
    r.append(part2.as_str());
    r.append("</p></div>");
    r
}

} // verus!

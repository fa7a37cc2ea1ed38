//! The operations the HTTP API serves: method, path template and OpenAPI operation id.

use vstd::prelude::*;

use crate::text::str_eq;

verus! {

broadcast use vstd::string::group_string_axioms;

/// An HTTP method the API routes.
#[derive(Debug, Clone, Copy, PartialEq, Eq, Structural)]
pub enum HttpMethod {
    Get,
    Head,
    Post,
    Patch,
    Delete,
}

impl HttpMethod {
    pub open spec fn name_spec(self) -> Seq<char> {
        match self {
            HttpMethod::Get => "get"@,
            HttpMethod::Head => "head"@,
            HttpMethod::Post => "post"@,
            HttpMethod::Patch => "patch"@,
            HttpMethod::Delete => "delete"@,
        }
    }

    /// The method's name, lowercase, as the OpenAPI document keys it.
    pub fn name(self) -> (n: &'static str)
        ensures
            n@ == self.name_spec(),
    {
        match self {
            HttpMethod::Get => "get",
            HttpMethod::Head => "head",
            HttpMethod::Post => "post",
            HttpMethod::Patch => "patch",
            HttpMethod::Delete => "delete",
        }
    }
}

/// One documented operation.
#[derive(Debug, Clone, Copy)]
pub struct Operation {
    pub method: HttpMethod,
    pub path: &'static str,
    pub operation_id: &'static str,
}

/// An operation, viewed.
pub open spec fn operation_view(op: Operation) -> (HttpMethod, Seq<char>, Seq<char>) {
    (op.method, op.path@, op.operation_id@)
}

/// Every operation of the production router, as its handlers document it.
pub open spec fn operation_catalogue() -> Seq<(HttpMethod, Seq<char>, Seq<char>)> {
    seq![
        (HttpMethod::Get, "/v1/attachments/{guid}"@, "getAttachment"@),
        (HttpMethod::Get, "/v1/attachments/{guid}/content"@, "getAttachmentContent"@),
        (HttpMethod::Head, "/v1/attachments/{guid}/content"@, "headAttachmentContent"@),
        (HttpMethod::Get, "/v1/calendar-accounts"@, "listCalendarAccounts"@),
        (HttpMethod::Get, "/v1/calendars"@, "listCalendars"@),
        (HttpMethod::Get, "/v1/calendars/{calendar_id}"@, "getCalendar"@),
        (HttpMethod::Get, "/v1/calendars/{calendar_id}/events"@, "listCalendarEvents"@),
        (HttpMethod::Get, "/v1/calendars/{calendar_id}/events/iCal"@, "listCalendarEventsIcal"@),
        (HttpMethod::Get, "/v1/calendars/{calendar_id}/events/caldav"@, "listCalendarEventsCaldav"@),
        (HttpMethod::Get, "/v1/chats"@, "listChats"@),
        (HttpMethod::Get, "/v1/chats/{chat_id}"@, "getChat"@),
        (HttpMethod::Get, "/v1/chats/{chat_id}/messages"@, "listChatMessages"@),
        (HttpMethod::Post, "/v1/containers/{container_id}/contacts"@, "createContact"@),
        (HttpMethod::Patch, "/v1/contacts/{contact_id}"@, "updateContact"@),
        (HttpMethod::Delete, "/v1/contacts/{contact_id}"@, "deleteContact"@),
        (HttpMethod::Post, "/v1/containers/{container_id}/groups"@, "createGroup"@),
        (HttpMethod::Patch, "/v1/groups/{group_id}"@, "updateGroup"@),
        (HttpMethod::Delete, "/v1/groups/{group_id}"@, "deleteGroup"@),
        (HttpMethod::Post, "/v1/groups/{group_id}/contacts/{contact_id}"@, "addContactToGroup"@),
        (HttpMethod::Delete, "/v1/groups/{group_id}/contacts/{contact_id}"@, "removeContactFromGroup"@),
        (HttpMethod::Get, "/v1/contacts"@, "listContacts"@),
        (HttpMethod::Get, "/v1/contacts/vcard"@, "listContactsVcard"@),
        (HttpMethod::Get, "/v1/contacts/carddav"@, "listContactsCarddav"@),
        (HttpMethod::Get, "/v1/contacts/search"@, "searchContacts"@),
        (HttpMethod::Get, "/v1/contacts/{contact_id}"@, "getContact"@),
        (HttpMethod::Get, "/v1/contacts/{contact_id}/vcard"@, "getContactVcard"@),
        (HttpMethod::Get, "/v1/contacts/{contact_id}/carddav"@, "getContactCarddav"@),
        (HttpMethod::Get, "/v1/contacts/{contact_id}/photo"@, "getContactPhoto"@),
        (HttpMethod::Get, "/v1/containers"@, "listContainers"@),
        (HttpMethod::Get, "/v1/containers/{container_id}"@, "getContainer"@),
        (HttpMethod::Get, "/v1/events/{event_id}/attachments/{attachment_id}"@, "getEventAttachmentContent"@),
        (HttpMethod::Post, "/v1/calendars/{calendar_id}/events"@, "createEvent"@),
        (HttpMethod::Patch, "/v1/events/{event_id}"@, "updateEvent"@),
        (HttpMethod::Delete, "/v1/events/{event_id}"@, "deleteEvent"@),
        (HttpMethod::Get, "/v1/events"@, "listEvents"@),
        (HttpMethod::Get, "/v1/events/iCal"@, "listEventsIcal"@),
        (HttpMethod::Get, "/v1/events/caldav"@, "listEventsCaldav"@),
        (HttpMethod::Get, "/v1/events/{event_id}"@, "getEvent"@),
        (HttpMethod::Get, "/v1/events/{event_id}/iCal"@, "getEventIcal"@),
        (HttpMethod::Get, "/v1/events/{event_id}/caldav"@, "getEventCaldav"@),
        (HttpMethod::Get, "/v1/groups"@, "listGroups"@),
        (HttpMethod::Get, "/v1/groups/{group_id}"@, "getGroup"@),
        (HttpMethod::Get, "/v1/groups/{group_id}/contacts"@, "listGroupContacts"@),
        (HttpMethod::Get, "/v1/groups/{group_id}/contacts/vcard"@, "listGroupContactsVcard"@),
        (HttpMethod::Get, "/v1/groups/{group_id}/contacts/carddav"@, "listGroupContactsCarddav"@),
        (HttpMethod::Get, "/healthz"@, "getHealth"@),
        (HttpMethod::Get, "/v1/messages"@, "listMessages"@),
        (HttpMethod::Get, "/v1/messages/{guid}"@, "getMessage"@),
        (HttpMethod::Get, "/v1/note-attachments/{id}"@, "getNoteAttachment"@),
        (HttpMethod::Get, "/v1/note-attachments/{id}/content"@, "getNoteAttachmentContent"@),
        (HttpMethod::Head, "/v1/note-attachments/{id}/content"@, "headNoteAttachmentContent"@),
        (HttpMethod::Get, "/v1/note-folders"@, "listNoteFolders"@),
        (HttpMethod::Get, "/v1/note-folders/{folder_id}"@, "getNoteFolder"@),
        (HttpMethod::Get, "/v1/note-folders/{folder_id}/notes"@, "listFolderNotes"@),
        (HttpMethod::Get, "/v1/notes"@, "listNotes"@),
        (HttpMethod::Get, "/v1/notes/{note_id}"@, "getNote"@),
        (HttpMethod::Get, "/v1/notes/{note_id}/contents"@, "getNoteContents"@),
        (HttpMethod::Get, "/openapi.json"@, "getOpenApiSpec"@),
        (HttpMethod::Get, "/v1/reminder-lists"@, "listReminderLists"@),
        (HttpMethod::Get, "/v1/reminder-lists/{list_id}"@, "getReminderList"@),
        (HttpMethod::Get, "/v1/reminder-lists/{list_id}/reminders"@, "listReminderListReminders"@),
        (HttpMethod::Post, "/v1/reminder-lists/{list_id}/reminders"@, "createReminder"@),
        (HttpMethod::Patch, "/v1/reminders/{reminder_id}"@, "updateReminder"@),
        (HttpMethod::Delete, "/v1/reminders/{reminder_id}"@, "deleteReminder"@),
        (HttpMethod::Get, "/v1/reminders"@, "listReminders"@),
        (HttpMethod::Get, "/v1/reminders/{reminder_id}"@, "getReminder"@),
        (HttpMethod::Get, "/v1/reminder-attachments/{id}"@, "getReminderAttachment"@),
        (HttpMethod::Get, "/v1/reminder-attachments/{id}/content"@, "getReminderAttachmentContent"@),
        (HttpMethod::Head, "/v1/reminder-attachments/{id}/content"@, "headReminderAttachmentContent"@),
    ]
}

/// Four features of an operation id that tell every id of the catalogue apart: its length,
/// its first and fifth characters and its last one.
pub open spec fn id_features(id: Seq<char>) -> (int, char, char, char) {
    (id.len() as int, id[0], id[4], id[id.len() - 1])
}

/// The position in the catalogue of the operation whose id has the features `f`; -1 where
/// none has.
pub open spec fn catalogue_position(f: (int, char, char, char)) -> int {
    if f == (13int, 'g', 't', 't') {
        0
    } else if f == (20int, 'g', 't', 't') {
        1
    } else if f == (21int, 'h', 'A', 't') {
        2
    } else if f == (20int, 'l', 'C', 's') {
        3
    } else if f == (13int, 'l', 'C', 's') {
        4
    } else if f == (11int, 'g', 'a', 'r') {
        5
    } else if f == (18int, 'l', 'C', 's') {
        6
    } else if f == (22int, 'l', 'C', 'l') {
        7
    } else if f == (24int, 'l', 'C', 'v') {
        8
    } else if f == (9int, 'l', 'C', 's') {
        9
    } else if f == (7int, 'g', 'h', 't') {
        10
    } else if f == (16int, 'l', 'C', 's') {
        11
    } else if f == (13int, 'c', 't', 't') {
        12
    } else if f == (13int, 'u', 't', 't') {
        13
    } else if f == (13int, 'd', 't', 't') {
        14
    } else if f == (11int, 'c', 't', 'p') {
        15
    } else if f == (11int, 'u', 't', 'p') {
        16
    } else if f == (11int, 'd', 't', 'p') {
        17
    } else if f == (17int, 'a', 'o', 'p') {
        18
    } else if f == (22int, 'r', 'v', 'p') {
        19
    } else if f == (12int, 'l', 'C', 's') {
        20
    } else if f == (17int, 'l', 'C', 'd') {
        21
    } else if f == (19int, 'l', 'C', 'v') {
        22
    } else if f == (14int, 's', 'c', 's') {
        23
    } else if f == (10int, 'g', 'o', 't') {
        24
    } else if f == (15int, 'g', 'o', 'd') {
        25
    } else if f == (17int, 'g', 'o', 'v') {
        26
    } else if f == (15int, 'g', 'o', 'o') {
        27
    } else if f == (14int, 'l', 'C', 's') {
        28
    } else if f == (12int, 'g', 'o', 'r') {
        29
    } else if f == (25int, 'g', 'v', 't') {
        30
    } else if f == (11int, 'c', 't', 't') {
        31
    } else if f == (11int, 'u', 't', 't') {
        32
    } else if f == (11int, 'd', 't', 't') {
        33
    } else if f == (10int, 'l', 'E', 's') {
        34
    } else if f == (14int, 'l', 'E', 'l') {
        35
    } else if f == (16int, 'l', 'E', 'v') {
        36
    } else if f == (8int, 'g', 'v', 't') {
        37
    } else if f == (12int, 'g', 'v', 'l') {
        38
    } else if f == (14int, 'g', 'v', 'v') {
        39
    } else if f == (10int, 'l', 'G', 's') {
        40
    } else if f == (8int, 'g', 'r', 'p') {
        41
    } else if f == (17int, 'l', 'G', 's') {
        42
    } else if f == (22int, 'l', 'G', 'd') {
        43
    } else if f == (24int, 'l', 'G', 'v') {
        44
    } else if f == (9int, 'g', 'e', 'h') {
        45
    } else if f == (12int, 'l', 'M', 's') {
        46
    } else if f == (10int, 'g', 'e', 'e') {
        47
    } else if f == (17int, 'g', 'o', 't') {
        48
    } else if f == (24int, 'g', 'o', 't') {
        49
    } else if f == (25int, 'h', 'N', 't') {
        50
    } else if f == (15int, 'l', 'N', 's') {
        51
    } else if f == (13int, 'g', 'o', 'r') {
        52
    } else if f == (15int, 'l', 'F', 's') {
        53
    } else if f == (9int, 'l', 'N', 's') {
        54
    } else if f == (7int, 'g', 'o', 'e') {
        55
    } else if f == (15int, 'g', 'o', 's') {
        56
    } else if f == (14int, 'g', 'p', 'c') {
        57
    } else if f == (17int, 'l', 'R', 's') {
        58
    } else if f == (15int, 'g', 'e', 't') {
        59
    } else if f == (25int, 'l', 'R', 's') {
        60
    } else if f == (14int, 'c', 't', 'r') {
        61
    } else if f == (14int, 'u', 't', 'r') {
        62
    } else if f == (14int, 'd', 't', 'r') {
        63
    } else if f == (13int, 'l', 'R', 's') {
        64
    } else if f == (11int, 'g', 'e', 'r') {
        65
    } else if f == (21int, 'g', 'e', 't') {
        66
    } else if f == (28int, 'g', 'e', 't') {
        67
    } else if f == (29int, 'h', 'R', 't') {
        68
    } else {
        -1
    }
}

/// The features of the id at each position of the catalogue lead back to that position.
#[verifier::rlimit(100)]
proof fn lemma_catalogue_ids_identify_position(i: int)
    requires
        0 <= i < operation_catalogue().len(),
    ensures
        catalogue_position(id_features(operation_catalogue()[i].2)) == i,
{
    if i == 0 {
        reveal_strlit("getAttachment");
    } else if i == 1 {
        reveal_strlit("getAttachmentContent");
    } else if i == 2 {
        reveal_strlit("headAttachmentContent");
    } else if i == 3 {
        reveal_strlit("listCalendarAccounts");
    } else if i == 4 {
        reveal_strlit("listCalendars");
    } else if i == 5 {
        reveal_strlit("getCalendar");
    } else if i == 6 {
        reveal_strlit("listCalendarEvents");
    } else if i == 7 {
        reveal_strlit("listCalendarEventsIcal");
    } else if i == 8 {
        reveal_strlit("listCalendarEventsCaldav");
    } else if i == 9 {
        reveal_strlit("listChats");
    } else if i == 10 {
        reveal_strlit("getChat");
    } else if i == 11 {
        reveal_strlit("listChatMessages");
    } else if i == 12 {
        reveal_strlit("createContact");
    } else if i == 13 {
        reveal_strlit("updateContact");
    } else if i == 14 {
        reveal_strlit("deleteContact");
    } else if i == 15 {
        reveal_strlit("createGroup");
    } else if i == 16 {
        reveal_strlit("updateGroup");
    } else if i == 17 {
        reveal_strlit("deleteGroup");
    } else if i == 18 {
        reveal_strlit("addContactToGroup");
    } else if i == 19 {
        reveal_strlit("removeContactFromGroup");
    } else if i == 20 {
        reveal_strlit("listContacts");
    } else if i == 21 {
        reveal_strlit("listContactsVcard");
    } else if i == 22 {
        reveal_strlit("listContactsCarddav");
    } else if i == 23 {
        reveal_strlit("searchContacts");
    } else if i == 24 {
        reveal_strlit("getContact");
    } else if i == 25 {
        reveal_strlit("getContactVcard");
    } else if i == 26 {
        reveal_strlit("getContactCarddav");
    } else if i == 27 {
        reveal_strlit("getContactPhoto");
    } else if i == 28 {
        reveal_strlit("listContainers");
    } else if i == 29 {
        reveal_strlit("getContainer");
    } else if i == 30 {
        reveal_strlit("getEventAttachmentContent");
    } else if i == 31 {
        reveal_strlit("createEvent");
    } else if i == 32 {
        reveal_strlit("updateEvent");
    } else if i == 33 {
        reveal_strlit("deleteEvent");
    } else if i == 34 {
        reveal_strlit("listEvents");
    } else if i == 35 {
        reveal_strlit("listEventsIcal");
    } else if i == 36 {
        reveal_strlit("listEventsCaldav");
    } else if i == 37 {
        reveal_strlit("getEvent");
    } else if i == 38 {
        reveal_strlit("getEventIcal");
    } else if i == 39 {
        reveal_strlit("getEventCaldav");
    } else if i == 40 {
        reveal_strlit("listGroups");
    } else if i == 41 {
        reveal_strlit("getGroup");
    } else if i == 42 {
        reveal_strlit("listGroupContacts");
    } else if i == 43 {
        reveal_strlit("listGroupContactsVcard");
    } else if i == 44 {
        reveal_strlit("listGroupContactsCarddav");
    } else if i == 45 {
        reveal_strlit("getHealth");
    } else if i == 46 {
        reveal_strlit("listMessages");
    } else if i == 47 {
        reveal_strlit("getMessage");
    } else if i == 48 {
        reveal_strlit("getNoteAttachment");
    } else if i == 49 {
        reveal_strlit("getNoteAttachmentContent");
    } else if i == 50 {
        reveal_strlit("headNoteAttachmentContent");
    } else if i == 51 {
        reveal_strlit("listNoteFolders");
    } else if i == 52 {
        reveal_strlit("getNoteFolder");
    } else if i == 53 {
        reveal_strlit("listFolderNotes");
    } else if i == 54 {
        reveal_strlit("listNotes");
    } else if i == 55 {
        reveal_strlit("getNote");
    } else if i == 56 {
        reveal_strlit("getNoteContents");
    } else if i == 57 {
        reveal_strlit("getOpenApiSpec");
    } else if i == 58 {
        reveal_strlit("listReminderLists");
    } else if i == 59 {
        reveal_strlit("getReminderList");
    } else if i == 60 {
        reveal_strlit("listReminderListReminders");
    } else if i == 61 {
        reveal_strlit("createReminder");
    } else if i == 62 {
        reveal_strlit("updateReminder");
    } else if i == 63 {
        reveal_strlit("deleteReminder");
    } else if i == 64 {
        reveal_strlit("listReminders");
    } else if i == 65 {
        reveal_strlit("getReminder");
    } else if i == 66 {
        reveal_strlit("getReminderAttachment");
    } else if i == 67 {
        reveal_strlit("getReminderAttachmentContent");
    } else if i == 68 {
        reveal_strlit("headReminderAttachmentContent");
    }
}

/// No two operations of the catalogue share an operation id.
pub proof fn lemma_catalogue_ids_distinct()
    ensures
        forall|i: int, j: int|
            0 <= i < j < operation_catalogue().len() ==> (#[trigger] operation_catalogue()[i]).2
                != (#[trigger] operation_catalogue()[j]).2,
{
    assert forall|i: int, j: int|
        0 <= i < j < operation_catalogue().len() implies (#[trigger] operation_catalogue()[i]).2
        != (#[trigger] operation_catalogue()[j]).2 by {
        lemma_catalogue_ids_identify_position(i);
        lemma_catalogue_ids_identify_position(j);
    }
}

/// Features of a route that tell every route of the catalogue apart: its method, and its
/// path's length, fifth character and last character.
pub open spec fn route_features(method: HttpMethod, path: Seq<char>) -> (HttpMethod, int, char, char) {
    (method, path.len() as int, path[4], path[path.len() - 1])
}

/// The position in the catalogue of the operation whose route has the features `f`; -1 where
/// none has.
pub open spec fn catalogue_route_position(f: (HttpMethod, int, char, char)) -> int {
    if f == (HttpMethod::Get, 22int, 'a', '}') {
        0
    } else if f == (HttpMethod::Get, 30int, 'a', 't') {
        1
    } else if f == (HttpMethod::Head, 30int, 'a', 't') {
        2
    } else if f == (HttpMethod::Get, 21int, 'c', 's') {
        3
    } else if f == (HttpMethod::Get, 13int, 'c', 's') {
        4
    } else if f == (HttpMethod::Get, 27int, 'c', '}') {
        5
    } else if f == (HttpMethod::Get, 34int, 'c', 's') {
        6
    } else if f == (HttpMethod::Get, 39int, 'c', 'l') {
        7
    } else if f == (HttpMethod::Get, 41int, 'c', 'v') {
        8
    } else if f == (HttpMethod::Get, 9int, 'c', 's') {
        9
    } else if f == (HttpMethod::Get, 19int, 'c', '}') {
        10
    } else if f == (HttpMethod::Get, 28int, 'c', 's') {
        11
    } else if f == (HttpMethod::Post, 38int, 'c', 's') {
        12
    } else if f == (HttpMethod::Patch, 25int, 'c', '}') {
        13
    } else if f == (HttpMethod::Delete, 25int, 'c', '}') {
        14
    } else if f == (HttpMethod::Post, 36int, 'c', 's') {
        15
    } else if f == (HttpMethod::Patch, 21int, 'g', '}') {
        16
    } else if f == (HttpMethod::Delete, 21int, 'g', '}') {
        17
    } else if f == (HttpMethod::Post, 43int, 'g', '}') {
        18
    } else if f == (HttpMethod::Delete, 43int, 'g', '}') {
        19
    } else if f == (HttpMethod::Get, 12int, 'c', 's') {
        20
    } else if f == (HttpMethod::Get, 18int, 'c', 'd') {
        21
    } else if f == (HttpMethod::Get, 20int, 'c', 'v') {
        22
    } else if f == (HttpMethod::Get, 19int, 'c', 'h') {
        23
    } else if f == (HttpMethod::Get, 25int, 'c', '}') {
        24
    } else if f == (HttpMethod::Get, 31int, 'c', 'd') {
        25
    } else if f == (HttpMethod::Get, 33int, 'c', 'v') {
        26
    } else if f == (HttpMethod::Get, 31int, 'c', 'o') {
        27
    } else if f == (HttpMethod::Get, 14int, 'c', 's') {
        28
    } else if f == (HttpMethod::Get, 29int, 'c', '}') {
        29
    } else if f == (HttpMethod::Get, 49int, 'e', '}') {
        30
    } else if f == (HttpMethod::Post, 34int, 'c', 's') {
        31
    } else if f == (HttpMethod::Patch, 21int, 'e', '}') {
        32
    } else if f == (HttpMethod::Delete, 21int, 'e', '}') {
        33
    } else if f == (HttpMethod::Get, 10int, 'e', 's') {
        34
    } else if f == (HttpMethod::Get, 15int, 'e', 'l') {
        35
    } else if f == (HttpMethod::Get, 17int, 'e', 'v') {
        36
    } else if f == (HttpMethod::Get, 21int, 'e', '}') {
        37
    } else if f == (HttpMethod::Get, 26int, 'e', 'l') {
        38
    } else if f == (HttpMethod::Get, 28int, 'e', 'v') {
        39
    } else if f == (HttpMethod::Get, 10int, 'g', 's') {
        40
    } else if f == (HttpMethod::Get, 21int, 'g', '}') {
        41
    } else if f == (HttpMethod::Get, 30int, 'g', 's') {
        42
    } else if f == (HttpMethod::Get, 36int, 'g', 'd') {
        43
    } else if f == (HttpMethod::Get, 38int, 'g', 'v') {
        44
    } else if f == (HttpMethod::Get, 8int, 'l', 'z') {
        45
    } else if f == (HttpMethod::Get, 12int, 'm', 's') {
        46
    } else if f == (HttpMethod::Get, 19int, 'm', '}') {
        47
    } else if f == (HttpMethod::Get, 25int, 'n', '}') {
        48
    } else if f == (HttpMethod::Get, 33int, 'n', 't') {
        49
    } else if f == (HttpMethod::Head, 33int, 'n', 't') {
        50
    } else if f == (HttpMethod::Get, 16int, 'n', 's') {
        51
    } else if f == (HttpMethod::Get, 28int, 'n', '}') {
        52
    } else if f == (HttpMethod::Get, 34int, 'n', 's') {
        53
    } else if f == (HttpMethod::Get, 9int, 'n', 's') {
        54
    } else if f == (HttpMethod::Get, 19int, 'n', '}') {
        55
    } else if f == (HttpMethod::Get, 28int, 'n', 's') {
        56
    } else if f == (HttpMethod::Get, 13int, 'n', 'n') {
        57
    } else if f == (HttpMethod::Get, 18int, 'r', 's') {
        58
    } else if f == (HttpMethod::Get, 28int, 'r', '}') {
        59
    } else if f == (HttpMethod::Get, 38int, 'r', 's') {
        60
    } else if f == (HttpMethod::Post, 38int, 'r', 's') {
        61
    } else if f == (HttpMethod::Patch, 27int, 'r', '}') {
        62
    } else if f == (HttpMethod::Delete, 27int, 'r', '}') {
        63
    } else if f == (HttpMethod::Get, 13int, 'r', 's') {
        64
    } else if f == (HttpMethod::Get, 27int, 'r', '}') {
        65
    } else if f == (HttpMethod::Get, 29int, 'r', '}') {
        66
    } else if f == (HttpMethod::Get, 37int, 'r', 't') {
        67
    } else if f == (HttpMethod::Head, 37int, 'r', 't') {
        68
    } else {
        -1
    }
}

/// The features of the route at each position of the catalogue lead back to that position.
#[verifier::rlimit(100)]
proof fn lemma_catalogue_routes_identify_position(i: int)
    requires
        0 <= i < operation_catalogue().len(),
    ensures
        catalogue_route_position(
            route_features(operation_catalogue()[i].0, operation_catalogue()[i].1),
        ) == i,
{
    if i == 0 {
        reveal_strlit("/v1/attachments/{guid}");
    } else if i == 1 {
        reveal_strlit("/v1/attachments/{guid}/content");
    } else if i == 2 {
        reveal_strlit("/v1/attachments/{guid}/content");
    } else if i == 3 {
        reveal_strlit("/v1/calendar-accounts");
    } else if i == 4 {
        reveal_strlit("/v1/calendars");
    } else if i == 5 {
        reveal_strlit("/v1/calendars/{calendar_id}");
    } else if i == 6 {
        reveal_strlit("/v1/calendars/{calendar_id}/events");
    } else if i == 7 {
        reveal_strlit("/v1/calendars/{calendar_id}/events/iCal");
    } else if i == 8 {
        reveal_strlit("/v1/calendars/{calendar_id}/events/caldav");
    } else if i == 9 {
        reveal_strlit("/v1/chats");
    } else if i == 10 {
        reveal_strlit("/v1/chats/{chat_id}");
    } else if i == 11 {
        reveal_strlit("/v1/chats/{chat_id}/messages");
    } else if i == 12 {
        reveal_strlit("/v1/containers/{container_id}/contacts");
    } else if i == 13 {
        reveal_strlit("/v1/contacts/{contact_id}");
    } else if i == 14 {
        reveal_strlit("/v1/contacts/{contact_id}");
    } else if i == 15 {
        reveal_strlit("/v1/containers/{container_id}/groups");
    } else if i == 16 {
        reveal_strlit("/v1/groups/{group_id}");
    } else if i == 17 {
        reveal_strlit("/v1/groups/{group_id}");
    } else if i == 18 {
        reveal_strlit("/v1/groups/{group_id}/contacts/{contact_id}");
    } else if i == 19 {
        reveal_strlit("/v1/groups/{group_id}/contacts/{contact_id}");
    } else if i == 20 {
        reveal_strlit("/v1/contacts");
    } else if i == 21 {
        reveal_strlit("/v1/contacts/vcard");
    } else if i == 22 {
        reveal_strlit("/v1/contacts/carddav");
    } else if i == 23 {
        reveal_strlit("/v1/contacts/search");
    } else if i == 24 {
        reveal_strlit("/v1/contacts/{contact_id}");
    } else if i == 25 {
        reveal_strlit("/v1/contacts/{contact_id}/vcard");
    } else if i == 26 {
        reveal_strlit("/v1/contacts/{contact_id}/carddav");
    } else if i == 27 {
        reveal_strlit("/v1/contacts/{contact_id}/photo");
    } else if i == 28 {
        reveal_strlit("/v1/containers");
    } else if i == 29 {
        reveal_strlit("/v1/containers/{container_id}");
    } else if i == 30 {
        reveal_strlit("/v1/events/{event_id}/attachments/{attachment_id}");
    } else if i == 31 {
        reveal_strlit("/v1/calendars/{calendar_id}/events");
    } else if i == 32 {
        reveal_strlit("/v1/events/{event_id}");
    } else if i == 33 {
        reveal_strlit("/v1/events/{event_id}");
    } else if i == 34 {
        reveal_strlit("/v1/events");
    } else if i == 35 {
        reveal_strlit("/v1/events/iCal");
    } else if i == 36 {
        reveal_strlit("/v1/events/caldav");
    } else if i == 37 {
        reveal_strlit("/v1/events/{event_id}");
    } else if i == 38 {
        reveal_strlit("/v1/events/{event_id}/iCal");
    } else if i == 39 {
        reveal_strlit("/v1/events/{event_id}/caldav");
    } else if i == 40 {
        reveal_strlit("/v1/groups");
    } else if i == 41 {
        reveal_strlit("/v1/groups/{group_id}");
    } else if i == 42 {
        reveal_strlit("/v1/groups/{group_id}/contacts");
    } else if i == 43 {
        reveal_strlit("/v1/groups/{group_id}/contacts/vcard");
    } else if i == 44 {
        reveal_strlit("/v1/groups/{group_id}/contacts/carddav");
    } else if i == 45 {
        reveal_strlit("/healthz");
    } else if i == 46 {
        reveal_strlit("/v1/messages");
    } else if i == 47 {
        reveal_strlit("/v1/messages/{guid}");
    } else if i == 48 {
        reveal_strlit("/v1/note-attachments/{id}");
    } else if i == 49 {
        reveal_strlit("/v1/note-attachments/{id}/content");
    } else if i == 50 {
        reveal_strlit("/v1/note-attachments/{id}/content");
    } else if i == 51 {
        reveal_strlit("/v1/note-folders");
    } else if i == 52 {
        reveal_strlit("/v1/note-folders/{folder_id}");
    } else if i == 53 {
        reveal_strlit("/v1/note-folders/{folder_id}/notes");
    } else if i == 54 {
        reveal_strlit("/v1/notes");
    } else if i == 55 {
        reveal_strlit("/v1/notes/{note_id}");
    } else if i == 56 {
        reveal_strlit("/v1/notes/{note_id}/contents");
    } else if i == 57 {
        reveal_strlit("/openapi.json");
    } else if i == 58 {
        reveal_strlit("/v1/reminder-lists");
    } else if i == 59 {
        reveal_strlit("/v1/reminder-lists/{list_id}");
    } else if i == 60 {
        reveal_strlit("/v1/reminder-lists/{list_id}/reminders");
    } else if i == 61 {
        reveal_strlit("/v1/reminder-lists/{list_id}/reminders");
    } else if i == 62 {
        reveal_strlit("/v1/reminders/{reminder_id}");
    } else if i == 63 {
        reveal_strlit("/v1/reminders/{reminder_id}");
    } else if i == 64 {
        reveal_strlit("/v1/reminders");
    } else if i == 65 {
        reveal_strlit("/v1/reminders/{reminder_id}");
    } else if i == 66 {
        reveal_strlit("/v1/reminder-attachments/{id}");
    } else if i == 67 {
        reveal_strlit("/v1/reminder-attachments/{id}/content");
    } else if i == 68 {
        reveal_strlit("/v1/reminder-attachments/{id}/content");
    }
}

/// No two operations of the catalogue serve the same method on the same path.
pub proof fn lemma_catalogue_routes_distinct()
    ensures
        forall|i: int, j: int|
            0 <= i < j < operation_catalogue().len() ==> {
                let a = #[trigger] operation_catalogue()[i];
                let b = #[trigger] operation_catalogue()[j];
                a.0 != b.0 || a.1 != b.1
            },
{
    assert forall|i: int, j: int| 0 <= i < j < operation_catalogue().len() implies {
        let a = #[trigger] operation_catalogue()[i];
        let b = #[trigger] operation_catalogue()[j];
        a.0 != b.0 || a.1 != b.1
    } by {
        lemma_catalogue_routes_identify_position(i);
        lemma_catalogue_routes_identify_position(j);
    }
}

/// Every operation of the production router.
#[verifier::rlimit(50)]
pub fn operations() -> (ops: Vec<Operation>)
    ensures
        ops@.map_values(|op: Operation| operation_view(op)) == operation_catalogue(),
        ids_distinct(ops@),
        routes_distinct(ops@),
{
    let mut ops: Vec<Operation> = Vec::new();
    ops.push(Operation { method: HttpMethod::Get, path: "/v1/attachments/{guid}", operation_id: "getAttachment" });
    ops.push(Operation { method: HttpMethod::Get, path: "/v1/attachments/{guid}/content", operation_id: "getAttachmentContent" });
    ops.push(Operation { method: HttpMethod::Head, path: "/v1/attachments/{guid}/content", operation_id: "headAttachmentContent" });
    ops.push(Operation { method: HttpMethod::Get, path: "/v1/calendar-accounts", operation_id: "listCalendarAccounts" });
    ops.push(Operation { method: HttpMethod::Get, path: "/v1/calendars", operation_id: "listCalendars" });
    ops.push(Operation { method: HttpMethod::Get, path: "/v1/calendars/{calendar_id}", operation_id: "getCalendar" });
    ops.push(Operation { method: HttpMethod::Get, path: "/v1/calendars/{calendar_id}/events", operation_id: "listCalendarEvents" });
    ops.push(Operation { method: HttpMethod::Get, path: "/v1/calendars/{calendar_id}/events/iCal", operation_id: "listCalendarEventsIcal" });
    ops.push(Operation { method: HttpMethod::Get, path: "/v1/calendars/{calendar_id}/events/caldav", operation_id: "listCalendarEventsCaldav" });
    ops.push(Operation { method: HttpMethod::Get, path: "/v1/chats", operation_id: "listChats" });
    ops.push(Operation { method: HttpMethod::Get, path: "/v1/chats/{chat_id}", operation_id: "getChat" });
    ops.push(Operation { method: HttpMethod::Get, path: "/v1/chats/{chat_id}/messages", operation_id: "listChatMessages" });
    ops.push(Operation { method: HttpMethod::Post, path: "/v1/containers/{container_id}/contacts", operation_id: "createContact" });
    ops.push(Operation { method: HttpMethod::Patch, path: "/v1/contacts/{contact_id}", operation_id: "updateContact" });
    ops.push(Operation { method: HttpMethod::Delete, path: "/v1/contacts/{contact_id}", operation_id: "deleteContact" });
    ops.push(Operation { method: HttpMethod::Post, path: "/v1/containers/{container_id}/groups", operation_id: "createGroup" });
    ops.push(Operation { method: HttpMethod::Patch, path: "/v1/groups/{group_id}", operation_id: "updateGroup" });
    ops.push(Operation { method: HttpMethod::Delete, path: "/v1/groups/{group_id}", operation_id: "deleteGroup" });
    ops.push(Operation { method: HttpMethod::Post, path: "/v1/groups/{group_id}/contacts/{contact_id}", operation_id: "addContactToGroup" });
    ops.push(Operation { method: HttpMethod::Delete, path: "/v1/groups/{group_id}/contacts/{contact_id}", operation_id: "removeContactFromGroup" });
    ops.push(Operation { method: HttpMethod::Get, path: "/v1/contacts", operation_id: "listContacts" });
    ops.push(Operation { method: HttpMethod::Get, path: "/v1/contacts/vcard", operation_id: "listContactsVcard" });
    ops.push(Operation { method: HttpMethod::Get, path: "/v1/contacts/carddav", operation_id: "listContactsCarddav" });
    ops.push(Operation { method: HttpMethod::Get, path: "/v1/contacts/search", operation_id: "searchContacts" });
    ops.push(Operation { method: HttpMethod::Get, path: "/v1/contacts/{contact_id}", operation_id: "getContact" });
    ops.push(Operation { method: HttpMethod::Get, path: "/v1/contacts/{contact_id}/vcard", operation_id: "getContactVcard" });
    ops.push(Operation { method: HttpMethod::Get, path: "/v1/contacts/{contact_id}/carddav", operation_id: "getContactCarddav" });
    ops.push(Operation { method: HttpMethod::Get, path: "/v1/contacts/{contact_id}/photo", operation_id: "getContactPhoto" });
    ops.push(Operation { method: HttpMethod::Get, path: "/v1/containers", operation_id: "listContainers" });
    ops.push(Operation { method: HttpMethod::Get, path: "/v1/containers/{container_id}", operation_id: "getContainer" });
    ops.push(Operation { method: HttpMethod::Get, path: "/v1/events/{event_id}/attachments/{attachment_id}", operation_id: "getEventAttachmentContent" });
    ops.push(Operation { method: HttpMethod::Post, path: "/v1/calendars/{calendar_id}/events", operation_id: "createEvent" });
    ops.push(Operation { method: HttpMethod::Patch, path: "/v1/events/{event_id}", operation_id: "updateEvent" });
    ops.push(Operation { method: HttpMethod::Delete, path: "/v1/events/{event_id}", operation_id: "deleteEvent" });
    ops.push(Operation { method: HttpMethod::Get, path: "/v1/events", operation_id: "listEvents" });
    ops.push(Operation { method: HttpMethod::Get, path: "/v1/events/iCal", operation_id: "listEventsIcal" });
    ops.push(Operation { method: HttpMethod::Get, path: "/v1/events/caldav", operation_id: "listEventsCaldav" });
    ops.push(Operation { method: HttpMethod::Get, path: "/v1/events/{event_id}", operation_id: "getEvent" });
    ops.push(Operation { method: HttpMethod::Get, path: "/v1/events/{event_id}/iCal", operation_id: "getEventIcal" });
    ops.push(Operation { method: HttpMethod::Get, path: "/v1/events/{event_id}/caldav", operation_id: "getEventCaldav" });
    ops.push(Operation { method: HttpMethod::Get, path: "/v1/groups", operation_id: "listGroups" });
    ops.push(Operation { method: HttpMethod::Get, path: "/v1/groups/{group_id}", operation_id: "getGroup" });
    ops.push(Operation { method: HttpMethod::Get, path: "/v1/groups/{group_id}/contacts", operation_id: "listGroupContacts" });
    ops.push(Operation { method: HttpMethod::Get, path: "/v1/groups/{group_id}/contacts/vcard", operation_id: "listGroupContactsVcard" });
    ops.push(Operation { method: HttpMethod::Get, path: "/v1/groups/{group_id}/contacts/carddav", operation_id: "listGroupContactsCarddav" });
    ops.push(Operation { method: HttpMethod::Get, path: "/healthz", operation_id: "getHealth" });
    ops.push(Operation { method: HttpMethod::Get, path: "/v1/messages", operation_id: "listMessages" });
    ops.push(Operation { method: HttpMethod::Get, path: "/v1/messages/{guid}", operation_id: "getMessage" });
    ops.push(Operation { method: HttpMethod::Get, path: "/v1/note-attachments/{id}", operation_id: "getNoteAttachment" });
    ops.push(Operation { method: HttpMethod::Get, path: "/v1/note-attachments/{id}/content", operation_id: "getNoteAttachmentContent" });
    ops.push(Operation { method: HttpMethod::Head, path: "/v1/note-attachments/{id}/content", operation_id: "headNoteAttachmentContent" });
    ops.push(Operation { method: HttpMethod::Get, path: "/v1/note-folders", operation_id: "listNoteFolders" });
    ops.push(Operation { method: HttpMethod::Get, path: "/v1/note-folders/{folder_id}", operation_id: "getNoteFolder" });
    ops.push(Operation { method: HttpMethod::Get, path: "/v1/note-folders/{folder_id}/notes", operation_id: "listFolderNotes" });
    ops.push(Operation { method: HttpMethod::Get, path: "/v1/notes", operation_id: "listNotes" });
    ops.push(Operation { method: HttpMethod::Get, path: "/v1/notes/{note_id}", operation_id: "getNote" });
    ops.push(Operation { method: HttpMethod::Get, path: "/v1/notes/{note_id}/contents", operation_id: "getNoteContents" });
    ops.push(Operation { method: HttpMethod::Get, path: "/openapi.json", operation_id: "getOpenApiSpec" });
    ops.push(Operation { method: HttpMethod::Get, path: "/v1/reminder-lists", operation_id: "listReminderLists" });
    ops.push(Operation { method: HttpMethod::Get, path: "/v1/reminder-lists/{list_id}", operation_id: "getReminderList" });
    ops.push(Operation { method: HttpMethod::Get, path: "/v1/reminder-lists/{list_id}/reminders", operation_id: "listReminderListReminders" });
    ops.push(Operation { method: HttpMethod::Post, path: "/v1/reminder-lists/{list_id}/reminders", operation_id: "createReminder" });
    ops.push(Operation { method: HttpMethod::Patch, path: "/v1/reminders/{reminder_id}", operation_id: "updateReminder" });
    ops.push(Operation { method: HttpMethod::Delete, path: "/v1/reminders/{reminder_id}", operation_id: "deleteReminder" });
    ops.push(Operation { method: HttpMethod::Get, path: "/v1/reminders", operation_id: "listReminders" });
    ops.push(Operation { method: HttpMethod::Get, path: "/v1/reminders/{reminder_id}", operation_id: "getReminder" });
    ops.push(Operation { method: HttpMethod::Get, path: "/v1/reminder-attachments/{id}", operation_id: "getReminderAttachment" });
    ops.push(Operation { method: HttpMethod::Get, path: "/v1/reminder-attachments/{id}/content", operation_id: "getReminderAttachmentContent" });
    ops.push(Operation { method: HttpMethod::Head, path: "/v1/reminder-attachments/{id}/content", operation_id: "headReminderAttachmentContent" });
    proof {
        assert(ops@.map_values(|op: Operation| operation_view(op)) =~= operation_catalogue());
        lemma_catalogue_ids_distinct();
        assert forall|i: int, j: int| 0 <= i < j < ops@.len() implies (#[trigger] ops@[i]).operation_id@
            != (#[trigger] ops@[j]).operation_id@ by {
            assert(operation_view(ops@[i]) == operation_catalogue()[i]);
            assert(operation_view(ops@[j]) == operation_catalogue()[j]);
        }
        lemma_catalogue_routes_distinct();
        assert forall|i: int, j: int| 0 <= i < j < ops@.len() implies (#[trigger] ops@[i]).method
            != (#[trigger] ops@[j]).method || ops@[i].path@ != ops@[j].path@ by {
            assert(operation_view(ops@[i]) == operation_catalogue()[i]);
            assert(operation_view(ops@[j]) == operation_catalogue()[j]);
        }
    }
    ops
}

/// No two operations serve the same method on the same path.
pub open spec fn routes_distinct(ops: Seq<Operation>) -> bool {
    forall|i: int, j: int|
        0 <= i < j < ops.len() ==> (#[trigger] ops[i]).method != (#[trigger] ops[j]).method
            || ops[i].path@ != ops[j].path@
}

/// No two operations share an operation id.
pub open spec fn ids_distinct(ops: Seq<Operation>) -> bool {
    forall|i: int, j: int|
        0 <= i < j < ops.len() ==> (#[trigger] ops[i]).operation_id@ != (#[trigger] ops[j]).operation_id@
}

/// Whether no two operations share an operation id.
pub fn operation_ids_unique(ops: &[Operation]) -> (r: bool)
    ensures
        r == ids_distinct(ops@),
{
    let mut i: usize = 0;
    while i < ops.len()
        invariant
            i <= ops.len(),
            forall|a: int, b: int|
                0 <= a < i && a < b < ops@.len() ==> (#[trigger] ops@[a]).operation_id@
                    != (#[trigger] ops@[b]).operation_id@,
        decreases ops.len() - i,
    {
        let mut j: usize = i + 1;
        while j < ops.len()
            invariant
                i < ops.len(),
                i + 1 <= j <= ops.len(),
                forall|a: int, b: int|
                    0 <= a < i && a < b < ops@.len() ==> (#[trigger] ops@[a]).operation_id@
                        != (#[trigger] ops@[b]).operation_id@,
                forall|b: int|
                    i < b < j ==> ops@[i as int].operation_id@ != (#[trigger] ops@[b]).operation_id@,
            decreases ops.len() - j,
        {
            if str_eq(ops[i].operation_id, ops[j].operation_id) {
                assert(!ids_distinct(ops@)) by {
                    assert(ops@[i as int].operation_id@ == ops@[j as int].operation_id@);
                }
                return false;
            }
            j = j + 1;
        }
        i = i + 1;
    }
    true
}

} // verus!

//! The clients that are connected, and what the events of the transport
//! mean for them.

use vstd::prelude::*;

verus! {

/// An event of the transport.
#[derive(Debug, PartialEq, Eq)]
pub enum Event {
    /// A client has connected.
    ClientConnected(u32),
    /// A client has gone.
    ClientDisconnected(u32),
    /// A client has sent a message.
    MessageReceived(u32, String),
    /// A client asks for the terminal of a user.
    LoadTerminal(u32, String),
}

/// The first place of `id` in `clients`, or the length of `clients` where
/// it is not among them.
pub open spec fn first_place(clients: Seq<u32>, id: u32) -> int
    decreases clients.len(),
{
    if clients.len() == 0 || clients[0] == id {
        0
    } else {
        1 + first_place(clients.drop_first(), id)
    }
}

/// The connected clients after `event`: a client that connects is added at
/// the end, a client that goes leaves at its first place, and nothing else
/// changes the list.
pub open spec fn clients_after(clients: Seq<u32>, event: Event) -> Seq<u32> {
    match event {
        Event::ClientConnected(id) => clients.push(id),
        Event::ClientDisconnected(id) => if first_place(clients, id) < clients.len() {
            clients.remove(first_place(clients, id))
        } else {
            clients
        },
        _ => clients,
    }
}

/// Where `id` is not among the first `k` clients and stands at `k`, or the
/// list ends there, its first place is `k`.
proof fn lemma_first_place_at(clients: Seq<u32>, id: u32, k: int)
    requires
        0 <= k <= clients.len(),
        forall|i: int| 0 <= i < k ==> clients[i] != id,
        k < clients.len() ==> clients[k] == id,
    ensures
        first_place(clients, id) == k,
    decreases k,
{
    if k > 0 {
        let rest = clients.drop_first();
        assert forall|i: int| 0 <= i < k - 1 implies rest[i] != id by {
            assert(rest[i] == clients[i + 1]);
        }
        lemma_first_place_at(rest, id, k - 1);
    }
}

/// Takes in one event of the transport: keeps the list of connected
/// clients, and hands back the user whose terminal is to be loaded, with
/// the client that asked, where the event asks for one.
pub fn event_handler(active_clients: &mut Vec<u32>, event: &Event) -> (load: Option<(u32, String)>)
    ensures
        final(active_clients)@ == clients_after(old(active_clients)@, *event),
        match event {
            Event::LoadTerminal(id, email) => load matches Some(l) && l.0 == *id && l.1@
                == email@,
            _ => load is None,
        },
{
    match event {
        Event::ClientConnected(id) => {
            active_clients.push(*id);
            None
        },
        Event::ClientDisconnected(id) => {
            let mut i: usize = 0;
            while i < active_clients.len()
                invariant
                    i <= active_clients.len(),
                    active_clients@ == old(active_clients)@,
                    *event == Event::ClientDisconnected(*id),
                    forall|k: int| 0 <= k < i ==> active_clients@[k] != *id,
                decreases active_clients.len() - i,
            {
                if active_clients[i] == *id {
                    proof {
                        lemma_first_place_at(active_clients@, *id, i as int);
                    }
                    active_clients.remove(i);
                    return None;
                }
                i += 1;
            }
            proof {
                lemma_first_place_at(active_clients@, *id, i as int);
            }
            None
        },
        Event::MessageReceived(_, _) => None,
        Event::LoadTerminal(id, email) => Some((*id, email.clone())),
    }
}

} // verus!

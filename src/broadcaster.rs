use vstd::prelude::*;
use crate::error::Error;
use crate::sprite_runtime::{Coordinate, Rectangle};
use tokio::sync::broadcast::error::SendError;
use tokio::sync::broadcast::{Receiver, Sender};

verus! {

#[verifier::external_type_specification]
#[verifier::external_body]
#[verifier::reject_recursive_types(T)]
pub struct ExSender<T>(Sender<T>);

#[verifier::external_type_specification]
#[verifier::external_body]
#[verifier::reject_recursive_types(T)]
pub struct ExReceiver<T>(Receiver<T>);

#[verifier::external_type_specification]
#[verifier::external_body]
#[verifier::reject_recursive_types(T)]
pub struct ExSendError<T>(SendError<T>);

/// Relies on tokio's `broadcast::channel`, which panics on a capacity of zero or above
/// `usize::MAX / 2`.
pub assume_specification<T: Clone>[ tokio::sync::broadcast::channel::<T> ](capacity: usize) -> (
    Sender<T>,
    Receiver<T>,
)
    requires
        0 < capacity <= usize::MAX / 2,
;

/// Relies on tokio's `Sender::send`: on success it reports how many receivers were
/// subscribed, which is at least one.
pub assume_specification<T>[ Sender::<T>::send ](s: &Sender<T>, value: T) -> (r: Result<
    usize,
    SendError<T>,
>)
    ensures
        r matches Ok(n) ==> n >= 1,
;

/// Relies on tokio's `Sender::subscribe`: a receiver of the messages sent after the call.
pub assume_specification<T>[ Sender::<T>::subscribe ](s: &Sender<T>) -> Receiver<T>;

/// Identifies one logical thread: the sprite it belongs to and its place there.
#[derive(Debug, Copy, Clone, PartialEq, Eq, Structural)]
pub struct ThreadId {
    pub sprite_id: usize,
    pub thread_id: usize,
}

/// Which threads a stop directive ends.
#[derive(Debug, Copy, Clone, PartialEq, Eq, Structural)]
pub enum Stop {
    All,
    ThisThread(ThreadId),
    OtherThreads(ThreadId),
}

/// Where a sprite moves among the layers.
#[derive(Debug, Copy, Clone, PartialEq, Eq, Structural)]
pub enum LayerChange {
    Front,
    Back,
}

/// The messages exchanged on the bus.
#[derive(Debug, Clone)]
pub enum BroadcastMsg {
    Start(String),
    Finished(String),
    Clone(usize),
    DeleteClone(usize),
    Stop(Stop),
    ChangeLayer { sprite: usize, action: LayerChange },
    MouseClick(Coordinate),
    RequestMousePosition,
    MousePosition(Coordinate),
    RequestPressedKeys,
    PressedKeys(Vec<String>),
    /// Asks for the rectangle of the sprite of this name.
    RequestSpriteRectangle(String),
    SpriteRectangle { sprite: String, rectangle: Rectangle },
    /// Requests the canvas image with the sprite left out.
    RequestCanvasImage(usize),
    CanvasImage(Vec<u8>),
}

/// Whether `msg` is the answer to the request `request`: the matching kind, and for
/// requests about one sprite, that same sprite.
pub open spec fn spec_answers(request: BroadcastMsg, msg: BroadcastMsg) -> bool {
    match request {
        BroadcastMsg::RequestMousePosition => msg is MousePosition,
        BroadcastMsg::RequestPressedKeys => msg is PressedKeys,
        BroadcastMsg::RequestSpriteRectangle(id) => msg matches BroadcastMsg::SpriteRectangle {
            sprite,
            ..
        } && sprite@ == id@,
        BroadcastMsg::RequestCanvasImage(_) => msg is CanvasImage,
        _ => false,
    }
}

pub fn answers(request: &BroadcastMsg, msg: &BroadcastMsg) -> (r: bool)
    ensures
        r == spec_answers(*request, *msg),
{
    match request {
        BroadcastMsg::RequestMousePosition => matches!(msg, BroadcastMsg::MousePosition(_)),
        BroadcastMsg::RequestPressedKeys => matches!(msg, BroadcastMsg::PressedKeys(_)),
        BroadcastMsg::RequestSpriteRectangle(id) => match msg {
            BroadcastMsg::SpriteRectangle { sprite, .. } => *sprite == *id,
            _ => false,
        },
        BroadcastMsg::RequestCanvasImage(_) => matches!(msg, BroadcastMsg::CanvasImage(_)),
        _ => false,
    }
}

/// How many unread messages the bus keeps per subscriber before the oldest are dropped.
pub const BACKLOG: usize = 32;

/// The publish/subscribe bus shared by all sprites.
pub struct Broadcaster {
    sender: Sender<BroadcastMsg>,
    /// The messages published so far, oldest first.
    published: Ghost<Seq<BroadcastMsg>>,
}

impl Broadcaster {
    /// The messages published so far, oldest first.
    pub closed spec fn spec_published(&self) -> Seq<BroadcastMsg> {
        self.published@
    }

    pub fn new() -> (r: Self)
        ensures
            r.spec_published().len() == 0,
    {
        let (sender, _receiver) = tokio::sync::broadcast::channel(BACKLOG);
        Self { sender, published: Ghost(Seq::empty()) }
    }

    /// Publishes `m` to every current subscriber; fails where there is none.
    pub fn send(&mut self, m: BroadcastMsg) -> (r: Result<(), Error>)
        ensures
            r is Err ==> r == Err::<(), Error>(Error::NoSubscribers),
            r is Ok ==> final(self).spec_published() == old(self).spec_published().push(m),
            r is Err ==> final(self).spec_published() == old(self).spec_published(),
    {
        let ghost msg = m;
        match self.sender.send(m) {
            Ok(_) => {
                self.published = Ghost(self.published@.push(msg));
                Ok(())
            },
            Err(_) => Err(Error::NoSubscribers),
        }
    }

    /// A receiver of every message sent from now on.
    pub fn subscribe(&self) -> Receiver<BroadcastMsg> {
        self.sender.subscribe()
    }
}

} // verus!

use vstd::prelude::*;
use crate::error::ApiError;
use crate::kinds::PersonContentType;
use crate::store::{Comment, Community, Person, Post};

verus! {

/// Turns a row of a combined table into the view it stands for.
pub trait InternalToCombinedView: Sized {
    type CombinedView;

    /// Maps the combined row to an enum.
    fn map_to_enum(self) -> Option<Self::CombinedView>;
}

/// A comment with what it is shown with.
#[derive(Debug)]
pub struct CommentView {
    pub comment: Comment,
    pub post: Post,
    pub community: Community,
    pub creator: Person,
}

/// A post with what it is shown with.
#[derive(Debug)]
pub struct PostView {
    pub post: Post,
    pub community: Community,
    pub creator: Person,
}

/// An item of a person's content: a post or a comment.
#[derive(Debug)]
pub enum PersonContentCombinedView {
    Comment(CommentView),
    Post(PostView),
}

/// A row of a person's content as read: a comment where there is one, else
/// the post.
#[derive(Debug)]
pub struct PersonContentCombinedViewInternal {
    pub comment: Option<Comment>,
    pub post: Post,
    pub community: Community,
    pub item_creator: Person,
}

impl InternalToCombinedView for PersonContentCombinedViewInternal {
    type CombinedView = PersonContentCombinedView;

    fn map_to_enum(self) -> Option<PersonContentCombinedView> {
        Some(self.to_view())
    }
}

impl PersonContentCombinedViewInternal {
    /// The view a row stands for: a comment where there is one, else the post.
    pub fn to_view(self) -> (r: PersonContentCombinedView)
        ensures
            match self.comment {
                Some(c) => r == PersonContentCombinedView::Comment(
                    CommentView { comment: c, post: self.post, community: self.community, creator: self.item_creator },
                ),
                None => r == PersonContentCombinedView::Post(
                    PostView { post: self.post, community: self.community, creator: self.item_creator },
                ),
            },
    {
        let v = self;
        match v.comment {
            Some(comment) => PersonContentCombinedView::Comment(
                CommentView { comment, post: v.post, community: v.community, creator: v.item_creator },
            ),
            None => PersonContentCombinedView::Post(
                PostView { post: v.post, community: v.community, creator: v.item_creator },
            ),
        }
    }

    /// The row is kept by a listing of the given content type.
    pub open spec fn kept_by_spec(&self, t: Option<PersonContentType>) -> bool {
        match t {
            None | Some(PersonContentType::All) => true,
            Some(PersonContentType::Comments) => self.comment is Some,
            Some(PersonContentType::Posts) => self.comment is None,
        }
    }

    /// Whether a listing of the given content type keeps the row.
    pub fn kept_by(&self, t: Option<PersonContentType>) -> (r: bool)
        ensures
            r == self.kept_by_spec(t),
    {
        match t {
            None | Some(PersonContentType::All) => true,
            Some(PersonContentType::Comments) => self.comment.is_some(),
            Some(PersonContentType::Posts) => self.comment.is_none(),
        }
    }
}

/// Where a pagination cursor points: a comment or a post.
#[derive(Clone, Copy, Debug, PartialEq, Eq, Structural)]
pub enum CursorTarget {
    Comment(i32),
    Post(i32),
}

impl PersonContentCombinedView {
    /// The cursor of the item: its kind letter and id.
    pub fn to_cursor(&self) -> (r: (char, i32))
        ensures
            r == match self {
                PersonContentCombinedView::Comment(v) => ('C', v.comment.id),
                PersonContentCombinedView::Post(v) => ('P', v.post.id),
            },
    {
        match self {
            PersonContentCombinedView::Comment(v) => ('C', v.comment.id),
            PersonContentCombinedView::Post(v) => ('P', v.post.id),
        }
    }

    /// Reads a cursor back: `C` points to a comment, `P` to a post.
    pub fn from_cursor(prefix: char, id: i32) -> (r: Result<CursorTarget, ApiError>)
        ensures
            r == if prefix == 'C' {
                Ok(CursorTarget::Comment(id))
            } else if prefix == 'P' {
                Ok(CursorTarget::Post(id))
            } else {
                Err(ApiError::CouldntParsePaginationToken)
            },
    {
        if prefix == 'C' {
            Ok(CursorTarget::Comment(id))
        } else if prefix == 'P' {
            Ok(CursorTarget::Post(id))
        } else {
            Err(ApiError::CouldntParsePaginationToken)
        }
    }
}

} // verus!

use vstd::prelude::*;

verus! {

/// The search sort types.
#[derive(Clone, Copy, Debug, PartialEq, Eq, Structural, Hash)]
pub enum SearchSortType {
    New,
    Top,
    Old,
}

impl Default for SearchSortType {
    fn default() -> (r: Self)
        ensures
            r == SearchSortType::New,
    {
        SearchSortType::New
    }
}

/// The community sort types.
#[derive(Clone, Copy, Debug, PartialEq, Eq, Structural, Hash)]
pub enum CommunitySortType {
    ActiveSixMonths,
    ActiveMonthly,
    ActiveWeekly,
    ActiveDaily,
    Hot,
    New,
    Old,
    NameAsc,
    NameDesc,
    Comments,
    Posts,
    Subscribers,
    SubscribersLocal,
}

impl Default for CommunitySortType {
    fn default() -> (r: Self)
        ensures
            r == CommunitySortType::ActiveMonthly,
    {
        CommunitySortType::ActiveMonthly
    }
}

/// The type of content returned from a search.
#[derive(Clone, Copy, Debug, PartialEq, Eq, Structural, Hash)]
pub enum SearchType {
    All,
    Comments,
    Posts,
    Communities,
    Users,
    MultiCommunities,
}

impl Default for SearchType {
    fn default() -> (r: Self)
        ensures
            r == SearchType::All,
    {
        SearchType::All
    }
}

/// The kinds of moderation log entries.
#[derive(Clone, Copy, Debug, PartialEq, Eq, Structural, Hash)]
pub enum ModlogActionType {
    All,
    ModRemovePost,
    ModLockPost,
    ModFeaturePost,
    ModRemoveComment,
    AdminRemoveCommunity,
    ModBanFromCommunity,
    ModAddToCommunity,
    ModTransferCommunity,
    AdminAdd,
    AdminBan,
    ModChangeCommunityVisibility,
    AdminPurgePerson,
    AdminPurgeCommunity,
    AdminPurgePost,
    AdminPurgeComment,
    AdminBlockInstance,
    AdminAllowInstance,
}

/// The kinds of inbox notifications.
#[derive(Clone, Copy, Debug, PartialEq, Eq, Structural, Hash)]
pub enum NotificationDataType {
    All,
    Reply,
    Mention,
    PrivateMessage,
    Subscribed,
}

/// The kinds of a person's content.
#[derive(Clone, Copy, Debug, PartialEq, Eq, Structural, Hash)]
pub enum PersonContentType {
    All,
    Comments,
    Posts,
}

/// The kinds of reports.
#[derive(Clone, Copy, Debug, PartialEq, Eq, Structural, Hash)]
pub enum ReportType {
    All,
    Posts,
    Comments,
    PrivateMessages,
    Communities,
}

/// Where a post is featured.
#[derive(Clone, Copy, Debug, PartialEq, Eq, Structural, Hash)]
pub enum PostFeatureType {
    /// At the top of the site.
    Local,
    /// At the top of its community.
    Community,
}

impl Default for PostFeatureType {
    fn default() -> (r: Self)
        ensures
            r == PostFeatureType::Local,
    {
        PostFeatureType::Local
    }
}

/// Which of a person's votes to list.
#[derive(Clone, Copy, Debug, PartialEq, Eq, Structural, Hash)]
pub enum LikeType {
    All,
    LikedOnly,
    DislikedOnly,
}

impl Default for LikeType {
    fn default() -> (r: Self)
        ensures
            r == LikeType::All,
    {
        LikeType::All
    }
}

} // verus!

//! Image handles and load requests.

use vstd::prelude::*;

verus! {

/// Names a loaded image.
#[derive(Copy, Clone, PartialEq, Eq, Structural, Debug, Hash, PartialOrd, Ord)]
pub struct ImageHandle(pub i32);

impl From<i32> for ImageHandle {
    fn from(value: i32) -> (r: ImageHandle) {
        ImageHandle(value)
    }
}

impl vstd::std_specs::convert::FromSpecImpl<i32> for ImageHandle {
    open spec fn obeys_from_spec() -> bool {
        true
    }

    open spec fn from_spec(value: i32) -> ImageHandle {
        ImageHandle(value)
    }
}

/// Names a bundled image.
#[derive(Copy, Clone, PartialEq, Eq, Debug, Hash, PartialOrd, Ord)]
pub struct ImageName(pub &'static str);

/// Encoded image bytes to load under a handle.
#[derive(Clone, Debug)]
pub struct ImageRequest {
    pub handle: ImageHandle,
    pub data: Vec<u8>,
}

impl ImageRequest {
    pub fn new(handle: ImageHandle, data: Vec<u8>) -> (r: ImageRequest)
        ensures
            r.handle == handle,
            r.data@ == data@,
    {
        ImageRequest { handle, data }
    }
}

/// Sent once the image under the handle is loaded.
#[derive(Copy, Clone, PartialEq, Eq, Structural, Debug)]
pub struct ImageLoaded(pub ImageHandle);

/// Images of icons that ship with the library, each in a PNG file of its own.
#[derive(Copy, Clone, PartialEq, Eq, Structural, Debug, Hash)]
pub enum BundledImageIcon {
    Activity,
    Airplay,
    AlertCircle,
    AlertOctagon,
    AlertTriangle,
    AlignCenter,
    AlignJustify,
    AlignLeft,
    AlignRight,
    Anchor,
    Aperture,
    Archive,
    ArrowDown,
    ArrowDownCircle,
    ArrowDownLeft,
    ArrowDownRight,
    ArrowLeft,
    ArrowLeftCircle,
    ArrowRight,
    ArrowRightCircle,
    ArrowUp,
    ArrowUpCircle,
    ArrowUpLeft,
    ArrowUpRight,
    AtSign,
    Award,
    BarChart,
    BarChart2,
    Battery,
    BatteryCharging,
    Bell,
    BellOff,
    Bluetooth,
    Bold,
    Book,
    BookOpen,
    Bookmark,
    Box,
    Briefcase,
    Calendar,
    Camera,
    CameraOff,
    Cast,
    Check,
    CheckCircle,
    CheckSquare,
    ChevronDown,
    ChevronLeft,
    ChevronRight,
    ChevronUp,
    ChevronsDown,
    ChevronsLeft,
    ChevronsRight,
    ChevronsUp,
    Chrome,
    Circle,
    Clipboard,
    Clock,
    Cloud,
    CloudDrizzle,
    CloudLightning,
    CloudOff,
    CloudRain,
    CloudSnow,
    Code,
    Codepen,
    CodeSandbox,
    Coffee,
    Columns,
    Command,
    Compass,
    Copy,
    CornerDownLeft,
    CornerDownRight,
    CornerLeftDown,
    CornerLeftUp,
    CornerRightDown,
    CornerRightUp,
    CornerUpLeft,
    CornerUpRight,
    Cpu,
    CreditCard,
    Crop,
    Crosshair,
    Database,
    Delete,
    Disc,
    Divide,
    DivideCircle,
    DivideSquare,
    DollarSign,
    Download,
    DownloadCloud,
    Dribble,
    Droplet,
    Edit,
    EditTwo,
    EditThree,
    ExternalLink,
    Eye,
    EyeOff,
    Facebook,
    FastForward,
    Feather,
    Figma,
    File,
    FileMinus,
    FilePlus,
    FileText,
    Film,
    Filter,
    Flag,
    Folder,
    FolderMinus,
    FolderPlus,
    Framer,
    Frown,
    Gift,
    GitBranch,
    GitCommit,
    GitMerge,
    GitPullRequest,
    Github,
    Gitlab,
    Globe,
    Grid,
    HardDrive,
    Hash,
    Headphones,
    Heart,
    HelpCircle,
    Hexagon,
    Home,
    Image,
    Inbox,
    Info,
    Instagram,
    Italic,
    Key,
    Layers,
    Layout,
    LifeBuoy,
    Link,
    LinkTwo,
    LinkedIn,
    List,
    Loader,
    Lock,
    LogIn,
    LogOut,
    Mail,
    MapIcon,
    MapPin,
    Maximize,
    MaximizeTwo,
    Meh,
    Menu,
    MessageCircle,
    MessageSquare,
    Mic,
    MicOff,
    Minimize,
    MinimizeTwo,
    Minus,
    MinusCircle,
    MinusSquare,
    Monitor,
    Moon,
    MoreHorizontal,
    MoreVertical,
    MousePointer,
    Move,
    Music,
    Navigation,
    NavigationTwo,
    Octagon,
    Package,
    Paperclip,
    Pause,
    PauseCircle,
    PenTool,
    Percent,
    Phone,
    PhoneCall,
    PhoneForwarded,
    PhoneIncoming,
    PhoneOff,
    PhoneOutgoing,
    PieChart,
    Play,
    PlayCircle,
    Plus,
    PlusCircle,
    PlusSquare,
    Pocket,
    Power,
    Printer,
    Radio,
    RefreshCCW,
    RefreshCW,
    Repeat,
    Rewind,
    RotateCCW,
    RotateCW,
    RSS,
    Save,
    Scissors,
    Search,
    Send,
    Server,
    Settings,
    Share,
    ShareTwo,
    Shield,
    ShieldOff,
    ShoppingBag,
    ShoppingCart,
    Shuffle,
    Sidebar,
    SkipBack,
    SkipForward,
    Slack,
    Slash,
    Sliders,
    Smartphone,
    Smile,
    Speaker,
    Square,
    Star,
    StopCircle,
    Sun,
    Sunrise,
    Sunset,
    Table,
    Tablet,
    Tag,
    Target,
    Terminal,
    Thermometer,
    ThumbsDown,
    ThumbsUp,
    ToggleLeft,
    ToggleRight,
    Tool,
    Trash,
    TrashTwo,
    Trello,
    TrendingDown,
    TrendingUp,
    Triangle,
    Truck,
    TV,
    Twitch,
    Twitter,
    Type,
    Umbrella,
    Underline,
    Unlock,
    Upload,
    UploadCloud,
    User,
    UserCheck,
    UserMinus,
    UserPlus,
    UserX,
    Users,
    Video,
    VideoOff,
    Voicemail,
    Volume,
    VolumeOne,
    VolumeTwo,
    VolumeX,
    Watch,
    Wifi,
    WifiOff,
    Wind,
    X,
    XCircle,
    XOctagon,
    XSquare,
    Youtube,
    Zap,
    ZapOff,
    ZoomIn,
    ZoomOut,
}

/// Name of the PNG file holding the image of `icon`.
pub open spec fn image_icon_file(icon: BundledImageIcon) -> Seq<char> {
    match icon {
        BundledImageIcon::Activity => "activity.png"@,
        BundledImageIcon::Airplay => "airplay.png"@,
        BundledImageIcon::AlertCircle => "alert-circle.png"@,
        BundledImageIcon::AlertOctagon => "alert-octagon.png"@,
        BundledImageIcon::AlertTriangle => "alert-triangle.png"@,
        BundledImageIcon::AlignCenter => "align-center.png"@,
        BundledImageIcon::AlignJustify => "align-justify.png"@,
        BundledImageIcon::AlignLeft => "align-left.png"@,
        BundledImageIcon::AlignRight => "align-right.png"@,
        BundledImageIcon::Anchor => "anchor.png"@,
        BundledImageIcon::Aperture => "aperture.png"@,
        BundledImageIcon::Archive => "archive.png"@,
        BundledImageIcon::ArrowDown => "arrow-down.png"@,
        BundledImageIcon::ArrowDownCircle => "arrow-down-circle.png"@,
        BundledImageIcon::ArrowDownLeft => "arrow-down-left.png"@,
        BundledImageIcon::ArrowDownRight => "arrow-down-right.png"@,
        BundledImageIcon::ArrowLeft => "arrow-left.png"@,
        BundledImageIcon::ArrowLeftCircle => "arrow-left-circle.png"@,
        BundledImageIcon::ArrowRight => "arrow-right.png"@,
        BundledImageIcon::ArrowRightCircle => "arrow-right-circle.png"@,
        BundledImageIcon::ArrowUp => "arrow-up.png"@,
        BundledImageIcon::ArrowUpCircle => "arrow-up-circle.png"@,
        BundledImageIcon::ArrowUpLeft => "arrow-up-left.png"@,
        BundledImageIcon::ArrowUpRight => "arrow-up-right.png"@,
        BundledImageIcon::AtSign => "at-sign.png"@,
        BundledImageIcon::Award => "award.png"@,
        BundledImageIcon::BarChart => "bar-chart.png"@,
        BundledImageIcon::BarChart2 => "bar-chart-2.png"@,
        BundledImageIcon::Battery => "battery.png"@,
        BundledImageIcon::BatteryCharging => "battery-charging.png"@,
        BundledImageIcon::Bell => "bell.png"@,
        BundledImageIcon::BellOff => "bell-off.png"@,
        BundledImageIcon::Bluetooth => "bluetooth.png"@,
        BundledImageIcon::Bold => "bold.png"@,
        BundledImageIcon::Book => "book.png"@,
        BundledImageIcon::BookOpen => "book-open.png"@,
        BundledImageIcon::Bookmark => "bookmark.png"@,
        BundledImageIcon::Box => "box.png"@,
        BundledImageIcon::Briefcase => "briefcase.png"@,
        BundledImageIcon::Calendar => "calendar.png"@,
        BundledImageIcon::Camera => "camera.png"@,
        BundledImageIcon::CameraOff => "camera-off.png"@,
        BundledImageIcon::Cast => "cast.png"@,
        BundledImageIcon::Check => "check.png"@,
        BundledImageIcon::CheckCircle => "check-circle.png"@,
        BundledImageIcon::CheckSquare => "check-square.png"@,
        BundledImageIcon::ChevronDown => "chevron-down.png"@,
        BundledImageIcon::ChevronLeft => "chevron-left.png"@,
        BundledImageIcon::ChevronRight => "chevron-right.png"@,
        BundledImageIcon::ChevronUp => "chevron-up.png"@,
        BundledImageIcon::ChevronsDown => "chevrons-down.png"@,
        BundledImageIcon::ChevronsLeft => "chevrons-left.png"@,
        BundledImageIcon::ChevronsRight => "chevrons-right.png"@,
        BundledImageIcon::ChevronsUp => "chevrons-up.png"@,
        BundledImageIcon::Chrome => "chrome.png"@,
        BundledImageIcon::Circle => "circle.png"@,
        BundledImageIcon::Clipboard => "clipboard.png"@,
        BundledImageIcon::Clock => "clock.png"@,
        BundledImageIcon::Cloud => "cloud.png"@,
        BundledImageIcon::CloudDrizzle => "cloud-drizzle.png"@,
        BundledImageIcon::CloudLightning => "cloud-lightning.png"@,
        BundledImageIcon::CloudOff => "cloud-off.png"@,
        BundledImageIcon::CloudRain => "cloud-rain.png"@,
        BundledImageIcon::CloudSnow => "cloud-snow.png"@,
        BundledImageIcon::Code => "code.png"@,
        BundledImageIcon::Codepen => "codepen.png"@,
        BundledImageIcon::CodeSandbox => "codesandbox.png"@,
        BundledImageIcon::Coffee => "coffee.png"@,
        BundledImageIcon::Columns => "columns.png"@,
        BundledImageIcon::Command => "command.png"@,
        BundledImageIcon::Compass => "compass.png"@,
        BundledImageIcon::Copy => "copy.png"@,
        BundledImageIcon::CornerDownLeft => "corner-down-left.png"@,
        BundledImageIcon::CornerDownRight => "corner-down-right.png"@,
        BundledImageIcon::CornerLeftDown => "corner-left-down.png"@,
        BundledImageIcon::CornerLeftUp => "corner-left-up.png"@,
        BundledImageIcon::CornerRightDown => "corner-right-down.png"@,
        BundledImageIcon::CornerRightUp => "corner-right-up.png"@,
        BundledImageIcon::CornerUpLeft => "corner-up-left.png"@,
        BundledImageIcon::CornerUpRight => "corner-up-right.png"@,
        BundledImageIcon::Cpu => "cpu.png"@,
        BundledImageIcon::CreditCard => "credit-card.png"@,
        BundledImageIcon::Crop => "crop.png"@,
        BundledImageIcon::Crosshair => "crosshair.png"@,
        BundledImageIcon::Database => "database.png"@,
        BundledImageIcon::Delete => "delete.png"@,
        BundledImageIcon::Disc => "disc.png"@,
        BundledImageIcon::Divide => "divide.png"@,
        BundledImageIcon::DivideCircle => "divide-circle.png"@,
        BundledImageIcon::DivideSquare => "divide-square.png"@,
        BundledImageIcon::DollarSign => "dollar-sign.png"@,
        BundledImageIcon::Download => "download.png"@,
        BundledImageIcon::DownloadCloud => "download-cloud.png"@,
        BundledImageIcon::Dribble => "dribbble.png"@,
        BundledImageIcon::Droplet => "droplet.png"@,
        BundledImageIcon::Edit => "edit.png"@,
        BundledImageIcon::EditTwo => "edit-2.png"@,
        BundledImageIcon::EditThree => "edit-3.png"@,
        BundledImageIcon::ExternalLink => "external-link.png"@,
        BundledImageIcon::Eye => "eye.png"@,
        BundledImageIcon::EyeOff => "eye-off.png"@,
        BundledImageIcon::Facebook => "facebook.png"@,
        BundledImageIcon::FastForward => "fast-forward.png"@,
        BundledImageIcon::Feather => "feather.png"@,
        BundledImageIcon::Figma => "figma.png"@,
        BundledImageIcon::File => "file.png"@,
        BundledImageIcon::FileMinus => "file-minus.png"@,
        BundledImageIcon::FilePlus => "file-plus.png"@,
        BundledImageIcon::FileText => "file-text.png"@,
        BundledImageIcon::Film => "film.png"@,
        BundledImageIcon::Filter => "filter.png"@,
        BundledImageIcon::Flag => "flag.png"@,
        BundledImageIcon::Folder => "folder.png"@,
        BundledImageIcon::FolderMinus => "folder-minus.png"@,
        BundledImageIcon::FolderPlus => "folder-plus.png"@,
        BundledImageIcon::Framer => "framer.png"@,
        BundledImageIcon::Frown => "frown.png"@,
        BundledImageIcon::Gift => "gift.png"@,
        BundledImageIcon::GitBranch => "git-branch.png"@,
        BundledImageIcon::GitCommit => "git-commit.png"@,
        BundledImageIcon::GitMerge => "git-merge.png"@,
        BundledImageIcon::GitPullRequest => "git-pull-request.png"@,
        BundledImageIcon::Github => "github.png"@,
        BundledImageIcon::Gitlab => "gitlab.png"@,
        BundledImageIcon::Globe => "globe.png"@,
        BundledImageIcon::Grid => "grid.png"@,
        BundledImageIcon::HardDrive => "hard-drive.png"@,
        BundledImageIcon::Hash => "hash.png"@,
        BundledImageIcon::Headphones => "headphones.png"@,
        BundledImageIcon::Heart => "heart.png"@,
        BundledImageIcon::HelpCircle => "help-circle.png"@,
        BundledImageIcon::Hexagon => "hexagon.png"@,
        BundledImageIcon::Home => "home.png"@,
        BundledImageIcon::Image => "image.png"@,
        BundledImageIcon::Inbox => "inbox.png"@,
        BundledImageIcon::Info => "info.png"@,
        BundledImageIcon::Instagram => "instagram.png"@,
        BundledImageIcon::Italic => "italic.png"@,
        BundledImageIcon::Key => "key.png"@,
        BundledImageIcon::Layers => "layers.png"@,
        BundledImageIcon::Layout => "layout.png"@,
        BundledImageIcon::LifeBuoy => "life-buoy.png"@,
        BundledImageIcon::Link => "link.png"@,
        BundledImageIcon::LinkTwo => "link-2.png"@,
        BundledImageIcon::LinkedIn => "linkedin.png"@,
        BundledImageIcon::List => "list.png"@,
        BundledImageIcon::Loader => "loader.png"@,
        BundledImageIcon::Lock => "lock.png"@,
        BundledImageIcon::LogIn => "log-in.png"@,
        BundledImageIcon::LogOut => "log-out.png"@,
        BundledImageIcon::Mail => "mail.png"@,
        BundledImageIcon::MapIcon => "map.png"@,
        BundledImageIcon::MapPin => "map-pin.png"@,
        BundledImageIcon::Maximize => "maximize.png"@,
        BundledImageIcon::MaximizeTwo => "maximize-2.png"@,
        BundledImageIcon::Meh => "meh.png"@,
        BundledImageIcon::Menu => "menu.png"@,
        BundledImageIcon::MessageCircle => "message-circle.png"@,
        BundledImageIcon::MessageSquare => "message-square.png"@,
        BundledImageIcon::Mic => "mic.png"@,
        BundledImageIcon::MicOff => "mic-off.png"@,
        BundledImageIcon::Minimize => "minimize.png"@,
        BundledImageIcon::MinimizeTwo => "minimize-2.png"@,
        BundledImageIcon::Minus => "minus.png"@,
        BundledImageIcon::MinusCircle => "minus-circle.png"@,
        BundledImageIcon::MinusSquare => "minus-square.png"@,
        BundledImageIcon::Monitor => "monitor.png"@,
        BundledImageIcon::Moon => "moon.png"@,
        BundledImageIcon::MoreHorizontal => "more-horizontal.png"@,
        BundledImageIcon::MoreVertical => "more-vertical.png"@,
        BundledImageIcon::MousePointer => "mouse-pointer.png"@,
        BundledImageIcon::Move => "move.png"@,
        BundledImageIcon::Music => "music.png"@,
        BundledImageIcon::Navigation => "navigation.png"@,
        BundledImageIcon::NavigationTwo => "navigation-2.png"@,
        BundledImageIcon::Octagon => "octagon.png"@,
        BundledImageIcon::Package => "package.png"@,
        BundledImageIcon::Paperclip => "paperclip.png"@,
        BundledImageIcon::Pause => "pause.png"@,
        BundledImageIcon::PauseCircle => "pause-circle.png"@,
        BundledImageIcon::PenTool => "pen-tool.png"@,
        BundledImageIcon::Percent => "percent.png"@,
        BundledImageIcon::Phone => "phone.png"@,
        BundledImageIcon::PhoneCall => "phone-call.png"@,
        BundledImageIcon::PhoneForwarded => "phone-forwarded.png"@,
        BundledImageIcon::PhoneIncoming => "phone-incoming.png"@,
        BundledImageIcon::PhoneOff => "phone-off.png"@,
        BundledImageIcon::PhoneOutgoing => "phone-outgoing.png"@,
        BundledImageIcon::PieChart => "pie-chart.png"@,
        BundledImageIcon::Play => "play.png"@,
        BundledImageIcon::PlayCircle => "play-circle.png"@,
        BundledImageIcon::Plus => "plus.png"@,
        BundledImageIcon::PlusCircle => "plus-circle.png"@,
        BundledImageIcon::PlusSquare => "plus-square.png"@,
        BundledImageIcon::Pocket => "pocket.png"@,
        BundledImageIcon::Power => "power.png"@,
        BundledImageIcon::Printer => "printer.png"@,
        BundledImageIcon::Radio => "radio.png"@,
        BundledImageIcon::RefreshCCW => "refresh-ccw.png"@,
        BundledImageIcon::RefreshCW => "refresh-cw.png"@,
        BundledImageIcon::Repeat => "repeat.png"@,
        BundledImageIcon::Rewind => "rewind.png"@,
        BundledImageIcon::RotateCCW => "rotate-ccw.png"@,
        BundledImageIcon::RotateCW => "rotate-cw.png"@,
        BundledImageIcon::RSS => "rss.png"@,
        BundledImageIcon::Save => "save.png"@,
        BundledImageIcon::Scissors => "scissors.png"@,
        BundledImageIcon::Search => "search.png"@,
        BundledImageIcon::Send => "send.png"@,
        BundledImageIcon::Server => "server.png"@,
        BundledImageIcon::Settings => "settings.png"@,
        BundledImageIcon::Share => "share.png"@,
        BundledImageIcon::ShareTwo => "share-2.png"@,
        BundledImageIcon::Shield => "shield.png"@,
        BundledImageIcon::ShieldOff => "shield-off.png"@,
        BundledImageIcon::ShoppingBag => "shopping-bag.png"@,
        BundledImageIcon::ShoppingCart => "shopping-cart.png"@,
        BundledImageIcon::Shuffle => "shuffle.png"@,
        BundledImageIcon::Sidebar => "sidebar.png"@,
        BundledImageIcon::SkipBack => "skip-back.png"@,
        BundledImageIcon::SkipForward => "skip-forward.png"@,
        BundledImageIcon::Slack => "slack.png"@,
        BundledImageIcon::Slash => "slash.png"@,
        BundledImageIcon::Sliders => "sliders.png"@,
        BundledImageIcon::Smartphone => "smartphone.png"@,
        BundledImageIcon::Smile => "smile.png"@,
        BundledImageIcon::Speaker => "speaker.png"@,
        BundledImageIcon::Square => "square.png"@,
        BundledImageIcon::Star => "star.png"@,
        BundledImageIcon::StopCircle => "stop-circle.png"@,
        BundledImageIcon::Sun => "sun.png"@,
        BundledImageIcon::Sunrise => "sunrise.png"@,
        BundledImageIcon::Sunset => "sunset.png"@,
        BundledImageIcon::Table => "table.png"@,
        BundledImageIcon::Tablet => "tablet.png"@,
        BundledImageIcon::Tag => "tag.png"@,
        BundledImageIcon::Target => "target.png"@,
        BundledImageIcon::Terminal => "terminal.png"@,
        BundledImageIcon::Thermometer => "thermometer.png"@,
        BundledImageIcon::ThumbsDown => "thumbs-down.png"@,
        BundledImageIcon::ThumbsUp => "thumbs-up.png"@,
        BundledImageIcon::ToggleLeft => "toggle-left.png"@,
        BundledImageIcon::ToggleRight => "toggle-right.png"@,
        BundledImageIcon::Tool => "tool.png"@,
        BundledImageIcon::Trash => "trash.png"@,
        BundledImageIcon::TrashTwo => "trash-2.png"@,
        BundledImageIcon::Trello => "trello.png"@,
        BundledImageIcon::TrendingDown => "trending-down.png"@,
        BundledImageIcon::TrendingUp => "trending-up.png"@,
        BundledImageIcon::Triangle => "triangle.png"@,
        BundledImageIcon::Truck => "truck.png"@,
        BundledImageIcon::TV => "tv.png"@,
        BundledImageIcon::Twitch => "twitch.png"@,
        BundledImageIcon::Twitter => "twitter.png"@,
        BundledImageIcon::Type => "type.png"@,
        BundledImageIcon::Umbrella => "umbrella.png"@,
        BundledImageIcon::Underline => "underline.png"@,
        BundledImageIcon::Unlock => "unlock.png"@,
        BundledImageIcon::Upload => "upload.png"@,
        BundledImageIcon::UploadCloud => "upload-cloud.png"@,
        BundledImageIcon::User => "user.png"@,
        BundledImageIcon::UserCheck => "user-check.png"@,
        BundledImageIcon::UserMinus => "user-minus.png"@,
        BundledImageIcon::UserPlus => "user-plus.png"@,
        BundledImageIcon::UserX => "user-x.png"@,
        BundledImageIcon::Users => "users.png"@,
        BundledImageIcon::Video => "video.png"@,
        BundledImageIcon::VideoOff => "video-off.png"@,
        BundledImageIcon::Voicemail => "voicemail.png"@,
        BundledImageIcon::Volume => "volume.png"@,
        BundledImageIcon::VolumeOne => "volume-1.png"@,
        BundledImageIcon::VolumeTwo => "volume-2.png"@,
        BundledImageIcon::VolumeX => "volume-x.png"@,
        BundledImageIcon::Watch => "watch.png"@,
        BundledImageIcon::Wifi => "wifi.png"@,
        BundledImageIcon::WifiOff => "wifi-off.png"@,
        BundledImageIcon::Wind => "wind.png"@,
        BundledImageIcon::X => "x.png"@,
        BundledImageIcon::XCircle => "x-circle.png"@,
        BundledImageIcon::XOctagon => "x-octagon.png"@,
        BundledImageIcon::XSquare => "x-square.png"@,
        BundledImageIcon::Youtube => "youtube.png"@,
        BundledImageIcon::Zap => "zap.png"@,
        BundledImageIcon::ZapOff => "zap-off.png"@,
        BundledImageIcon::ZoomIn => "zoom-in.png"@,
        BundledImageIcon::ZoomOut => "zoom-out.png"@,
    }
}

impl BundledImageIcon {
    /// Name of the PNG file holding this image.
    pub fn file_name(&self) -> (r: &'static str)
        ensures
            r@ == image_icon_file(*self),
    {
        match self {
            BundledImageIcon::Activity => "activity.png",
            BundledImageIcon::Airplay => "airplay.png",
            BundledImageIcon::AlertCircle => "alert-circle.png",
            BundledImageIcon::AlertOctagon => "alert-octagon.png",
            BundledImageIcon::AlertTriangle => "alert-triangle.png",
            BundledImageIcon::AlignCenter => "align-center.png",
            BundledImageIcon::AlignJustify => "align-justify.png",
            BundledImageIcon::AlignLeft => "align-left.png",
            BundledImageIcon::AlignRight => "align-right.png",
            BundledImageIcon::Anchor => "anchor.png",
            BundledImageIcon::Aperture => "aperture.png",
            BundledImageIcon::Archive => "archive.png",
            BundledImageIcon::ArrowDown => "arrow-down.png",
            BundledImageIcon::ArrowDownCircle => "arrow-down-circle.png",
            BundledImageIcon::ArrowDownLeft => "arrow-down-left.png",
            BundledImageIcon::ArrowDownRight => "arrow-down-right.png",
            BundledImageIcon::ArrowLeft => "arrow-left.png",
            BundledImageIcon::ArrowLeftCircle => "arrow-left-circle.png",
            BundledImageIcon::ArrowRight => "arrow-right.png",
            BundledImageIcon::ArrowRightCircle => "arrow-right-circle.png",
            BundledImageIcon::ArrowUp => "arrow-up.png",
            BundledImageIcon::ArrowUpCircle => "arrow-up-circle.png",
            BundledImageIcon::ArrowUpLeft => "arrow-up-left.png",
            BundledImageIcon::ArrowUpRight => "arrow-up-right.png",
            BundledImageIcon::AtSign => "at-sign.png",
            BundledImageIcon::Award => "award.png",
            BundledImageIcon::BarChart => "bar-chart.png",
            BundledImageIcon::BarChart2 => "bar-chart-2.png",
            BundledImageIcon::Battery => "battery.png",
            BundledImageIcon::BatteryCharging => "battery-charging.png",
            BundledImageIcon::Bell => "bell.png",
            BundledImageIcon::BellOff => "bell-off.png",
            BundledImageIcon::Bluetooth => "bluetooth.png",
            BundledImageIcon::Bold => "bold.png",
            BundledImageIcon::Book => "book.png",
            BundledImageIcon::BookOpen => "book-open.png",
            BundledImageIcon::Bookmark => "bookmark.png",
            BundledImageIcon::Box => "box.png",
            BundledImageIcon::Briefcase => "briefcase.png",
            BundledImageIcon::Calendar => "calendar.png",
            BundledImageIcon::Camera => "camera.png",
            BundledImageIcon::CameraOff => "camera-off.png",
            BundledImageIcon::Cast => "cast.png",
            BundledImageIcon::Check => "check.png",
            BundledImageIcon::CheckCircle => "check-circle.png",
            BundledImageIcon::CheckSquare => "check-square.png",
            BundledImageIcon::ChevronDown => "chevron-down.png",
            BundledImageIcon::ChevronLeft => "chevron-left.png",
            BundledImageIcon::ChevronRight => "chevron-right.png",
            BundledImageIcon::ChevronUp => "chevron-up.png",
            BundledImageIcon::ChevronsDown => "chevrons-down.png",
            BundledImageIcon::ChevronsLeft => "chevrons-left.png",
            BundledImageIcon::ChevronsRight => "chevrons-right.png",
            BundledImageIcon::ChevronsUp => "chevrons-up.png",
            BundledImageIcon::Chrome => "chrome.png",
            BundledImageIcon::Circle => "circle.png",
            BundledImageIcon::Clipboard => "clipboard.png",
            BundledImageIcon::Clock => "clock.png",
            BundledImageIcon::Cloud => "cloud.png",
            BundledImageIcon::CloudDrizzle => "cloud-drizzle.png",
            BundledImageIcon::CloudLightning => "cloud-lightning.png",
            BundledImageIcon::CloudOff => "cloud-off.png",
            BundledImageIcon::CloudRain => "cloud-rain.png",
            BundledImageIcon::CloudSnow => "cloud-snow.png",
            BundledImageIcon::Code => "code.png",
            BundledImageIcon::Codepen => "codepen.png",
            BundledImageIcon::CodeSandbox => "codesandbox.png",
            BundledImageIcon::Coffee => "coffee.png",
            BundledImageIcon::Columns => "columns.png",
            BundledImageIcon::Command => "command.png",
            BundledImageIcon::Compass => "compass.png",
            BundledImageIcon::Copy => "copy.png",
            BundledImageIcon::CornerDownLeft => "corner-down-left.png",
            BundledImageIcon::CornerDownRight => "corner-down-right.png",
            BundledImageIcon::CornerLeftDown => "corner-left-down.png",
            BundledImageIcon::CornerLeftUp => "corner-left-up.png",
            BundledImageIcon::CornerRightDown => "corner-right-down.png",
            BundledImageIcon::CornerRightUp => "corner-right-up.png",
            BundledImageIcon::CornerUpLeft => "corner-up-left.png",
            BundledImageIcon::CornerUpRight => "corner-up-right.png",
            BundledImageIcon::Cpu => "cpu.png",
            BundledImageIcon::CreditCard => "credit-card.png",
            BundledImageIcon::Crop => "crop.png",
            BundledImageIcon::Crosshair => "crosshair.png",
            BundledImageIcon::Database => "database.png",
            BundledImageIcon::Delete => "delete.png",
            BundledImageIcon::Disc => "disc.png",
            BundledImageIcon::Divide => "divide.png",
            BundledImageIcon::DivideCircle => "divide-circle.png",
            BundledImageIcon::DivideSquare => "divide-square.png",
            BundledImageIcon::DollarSign => "dollar-sign.png",
            BundledImageIcon::Download => "download.png",
            BundledImageIcon::DownloadCloud => "download-cloud.png",
            BundledImageIcon::Dribble => "dribbble.png",
            BundledImageIcon::Droplet => "droplet.png",
            BundledImageIcon::Edit => "edit.png",
            BundledImageIcon::EditTwo => "edit-2.png",
            BundledImageIcon::EditThree => "edit-3.png",
            BundledImageIcon::ExternalLink => "external-link.png",
            BundledImageIcon::Eye => "eye.png",
            BundledImageIcon::EyeOff => "eye-off.png",
            BundledImageIcon::Facebook => "facebook.png",
            BundledImageIcon::FastForward => "fast-forward.png",
            BundledImageIcon::Feather => "feather.png",
            BundledImageIcon::Figma => "figma.png",
            BundledImageIcon::File => "file.png",
            BundledImageIcon::FileMinus => "file-minus.png",
            BundledImageIcon::FilePlus => "file-plus.png",
            BundledImageIcon::FileText => "file-text.png",
            BundledImageIcon::Film => "film.png",
            BundledImageIcon::Filter => "filter.png",
            BundledImageIcon::Flag => "flag.png",
            BundledImageIcon::Folder => "folder.png",
            BundledImageIcon::FolderMinus => "folder-minus.png",
            BundledImageIcon::FolderPlus => "folder-plus.png",
            BundledImageIcon::Framer => "framer.png",
            BundledImageIcon::Frown => "frown.png",
            BundledImageIcon::Gift => "gift.png",
            BundledImageIcon::GitBranch => "git-branch.png",
            BundledImageIcon::GitCommit => "git-commit.png",
            BundledImageIcon::GitMerge => "git-merge.png",
            BundledImageIcon::GitPullRequest => "git-pull-request.png",
            BundledImageIcon::Github => "github.png",
            BundledImageIcon::Gitlab => "gitlab.png",
            BundledImageIcon::Globe => "globe.png",
            BundledImageIcon::Grid => "grid.png",
            BundledImageIcon::HardDrive => "hard-drive.png",
            BundledImageIcon::Hash => "hash.png",
            BundledImageIcon::Headphones => "headphones.png",
            BundledImageIcon::Heart => "heart.png",
            BundledImageIcon::HelpCircle => "help-circle.png",
            BundledImageIcon::Hexagon => "hexagon.png",
            BundledImageIcon::Home => "home.png",
            BundledImageIcon::Image => "image.png",
            BundledImageIcon::Inbox => "inbox.png",
            BundledImageIcon::Info => "info.png",
            BundledImageIcon::Instagram => "instagram.png",
            BundledImageIcon::Italic => "italic.png",
            BundledImageIcon::Key => "key.png",
            BundledImageIcon::Layers => "layers.png",
            BundledImageIcon::Layout => "layout.png",
            BundledImageIcon::LifeBuoy => "life-buoy.png",
            BundledImageIcon::Link => "link.png",
            BundledImageIcon::LinkTwo => "link-2.png",
            BundledImageIcon::LinkedIn => "linkedin.png",
            BundledImageIcon::List => "list.png",
            BundledImageIcon::Loader => "loader.png",
            BundledImageIcon::Lock => "lock.png",
            BundledImageIcon::LogIn => "log-in.png",
            BundledImageIcon::LogOut => "log-out.png",
            BundledImageIcon::Mail => "mail.png",
            BundledImageIcon::MapIcon => "map.png",
            BundledImageIcon::MapPin => "map-pin.png",
            BundledImageIcon::Maximize => "maximize.png",
            BundledImageIcon::MaximizeTwo => "maximize-2.png",
            BundledImageIcon::Meh => "meh.png",
            BundledImageIcon::Menu => "menu.png",
            BundledImageIcon::MessageCircle => "message-circle.png",
            BundledImageIcon::MessageSquare => "message-square.png",
            BundledImageIcon::Mic => "mic.png",
            BundledImageIcon::MicOff => "mic-off.png",
            BundledImageIcon::Minimize => "minimize.png",
            BundledImageIcon::MinimizeTwo => "minimize-2.png",
            BundledImageIcon::Minus => "minus.png",
            BundledImageIcon::MinusCircle => "minus-circle.png",
            BundledImageIcon::MinusSquare => "minus-square.png",
            BundledImageIcon::Monitor => "monitor.png",
            BundledImageIcon::Moon => "moon.png",
            BundledImageIcon::MoreHorizontal => "more-horizontal.png",
            BundledImageIcon::MoreVertical => "more-vertical.png",
            BundledImageIcon::MousePointer => "mouse-pointer.png",
            BundledImageIcon::Move => "move.png",
            BundledImageIcon::Music => "music.png",
            BundledImageIcon::Navigation => "navigation.png",
            BundledImageIcon::NavigationTwo => "navigation-2.png",
            BundledImageIcon::Octagon => "octagon.png",
            BundledImageIcon::Package => "package.png",
            BundledImageIcon::Paperclip => "paperclip.png",
            BundledImageIcon::Pause => "pause.png",
            BundledImageIcon::PauseCircle => "pause-circle.png",
            BundledImageIcon::PenTool => "pen-tool.png",
            BundledImageIcon::Percent => "percent.png",
            BundledImageIcon::Phone => "phone.png",
            BundledImageIcon::PhoneCall => "phone-call.png",
            BundledImageIcon::PhoneForwarded => "phone-forwarded.png",
            BundledImageIcon::PhoneIncoming => "phone-incoming.png",
            BundledImageIcon::PhoneOff => "phone-off.png",
            BundledImageIcon::PhoneOutgoing => "phone-outgoing.png",
            BundledImageIcon::PieChart => "pie-chart.png",
            BundledImageIcon::Play => "play.png",
            BundledImageIcon::PlayCircle => "play-circle.png",
            BundledImageIcon::Plus => "plus.png",
            BundledImageIcon::PlusCircle => "plus-circle.png",
            BundledImageIcon::PlusSquare => "plus-square.png",
            BundledImageIcon::Pocket => "pocket.png",
            BundledImageIcon::Power => "power.png",
            BundledImageIcon::Printer => "printer.png",
            BundledImageIcon::Radio => "radio.png",
            BundledImageIcon::RefreshCCW => "refresh-ccw.png",
            BundledImageIcon::RefreshCW => "refresh-cw.png",
            BundledImageIcon::Repeat => "repeat.png",
            BundledImageIcon::Rewind => "rewind.png",
            BundledImageIcon::RotateCCW => "rotate-ccw.png",
            BundledImageIcon::RotateCW => "rotate-cw.png",
            BundledImageIcon::RSS => "rss.png",
            BundledImageIcon::Save => "save.png",
            BundledImageIcon::Scissors => "scissors.png",
            BundledImageIcon::Search => "search.png",
            BundledImageIcon::Send => "send.png",
            BundledImageIcon::Server => "server.png",
            BundledImageIcon::Settings => "settings.png",
            BundledImageIcon::Share => "share.png",
            BundledImageIcon::ShareTwo => "share-2.png",
            BundledImageIcon::Shield => "shield.png",
            BundledImageIcon::ShieldOff => "shield-off.png",
            BundledImageIcon::ShoppingBag => "shopping-bag.png",
            BundledImageIcon::ShoppingCart => "shopping-cart.png",
            BundledImageIcon::Shuffle => "shuffle.png",
            BundledImageIcon::Sidebar => "sidebar.png",
            BundledImageIcon::SkipBack => "skip-back.png",
            BundledImageIcon::SkipForward => "skip-forward.png",
            BundledImageIcon::Slack => "slack.png",
            BundledImageIcon::Slash => "slash.png",
            BundledImageIcon::Sliders => "sliders.png",
            BundledImageIcon::Smartphone => "smartphone.png",
            BundledImageIcon::Smile => "smile.png",
            BundledImageIcon::Speaker => "speaker.png",
            BundledImageIcon::Square => "square.png",
            BundledImageIcon::Star => "star.png",
            BundledImageIcon::StopCircle => "stop-circle.png",
            BundledImageIcon::Sun => "sun.png",
            BundledImageIcon::Sunrise => "sunrise.png",
            BundledImageIcon::Sunset => "sunset.png",
            BundledImageIcon::Table => "table.png",
            BundledImageIcon::Tablet => "tablet.png",
            BundledImageIcon::Tag => "tag.png",
            BundledImageIcon::Target => "target.png",
            BundledImageIcon::Terminal => "terminal.png",
            BundledImageIcon::Thermometer => "thermometer.png",
            BundledImageIcon::ThumbsDown => "thumbs-down.png",
            BundledImageIcon::ThumbsUp => "thumbs-up.png",
            BundledImageIcon::ToggleLeft => "toggle-left.png",
            BundledImageIcon::ToggleRight => "toggle-right.png",
            BundledImageIcon::Tool => "tool.png",
            BundledImageIcon::Trash => "trash.png",
            BundledImageIcon::TrashTwo => "trash-2.png",
            BundledImageIcon::Trello => "trello.png",
            BundledImageIcon::TrendingDown => "trending-down.png",
            BundledImageIcon::TrendingUp => "trending-up.png",
            BundledImageIcon::Triangle => "triangle.png",
            BundledImageIcon::Truck => "truck.png",
            BundledImageIcon::TV => "tv.png",
            BundledImageIcon::Twitch => "twitch.png",
            BundledImageIcon::Twitter => "twitter.png",
            BundledImageIcon::Type => "type.png",
            BundledImageIcon::Umbrella => "umbrella.png",
            BundledImageIcon::Underline => "underline.png",
            BundledImageIcon::Unlock => "unlock.png",
            BundledImageIcon::Upload => "upload.png",
            BundledImageIcon::UploadCloud => "upload-cloud.png",
            BundledImageIcon::User => "user.png",
            BundledImageIcon::UserCheck => "user-check.png",
            BundledImageIcon::UserMinus => "user-minus.png",
            BundledImageIcon::UserPlus => "user-plus.png",
            BundledImageIcon::UserX => "user-x.png",
            BundledImageIcon::Users => "users.png",
            BundledImageIcon::Video => "video.png",
            BundledImageIcon::VideoOff => "video-off.png",
            BundledImageIcon::Voicemail => "voicemail.png",
            BundledImageIcon::Volume => "volume.png",
            BundledImageIcon::VolumeOne => "volume-1.png",
            BundledImageIcon::VolumeTwo => "volume-2.png",
            BundledImageIcon::VolumeX => "volume-x.png",
            BundledImageIcon::Watch => "watch.png",
            BundledImageIcon::Wifi => "wifi.png",
            BundledImageIcon::WifiOff => "wifi-off.png",
            BundledImageIcon::Wind => "wind.png",
            BundledImageIcon::X => "x.png",
            BundledImageIcon::XCircle => "x-circle.png",
            BundledImageIcon::XOctagon => "x-octagon.png",
            BundledImageIcon::XSquare => "x-square.png",
            BundledImageIcon::Youtube => "youtube.png",
            BundledImageIcon::Zap => "zap.png",
            BundledImageIcon::ZapOff => "zap-off.png",
            BundledImageIcon::ZoomIn => "zoom-in.png",
            BundledImageIcon::ZoomOut => "zoom-out.png",
        }
    }
}

} // verus!

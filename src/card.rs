use vstd::prelude::*;

use crate::holiday::HolidayInfo;

verus! {

/// One article of a news card.
#[derive(Debug, Clone, PartialEq, Eq)]
pub struct Article {
    pub title: String,
    pub description: String,
    pub url: String,
    pub picurl: String,
}

/// The articles of a news card.
#[derive(Debug, Clone, PartialEq, Eq)]
pub struct News {
    pub articles: Vec<Article>,
}

/// A news card as the group-chat webhook takes it.
#[derive(Debug, Clone, PartialEq, Eq)]
pub struct MessageInfo {
    pub msgtype: String,
    pub news: News,
}

impl MessageInfo {
    /// A news card with one article that links to the bot's page.
    pub fn new(title: String, description: String, picurl: String) -> (r: MessageInfo)
        ensures
            r.msgtype@ == "news"@,
            r.news.articles@.len() == 1,
            r.news.articles@[0].title == title,
            r.news.articles@[0].description == description,
            r.news.articles@[0].url@ == "https://www.yuque.com/u68186/owc2wh/uxiqkm"@,
            r.news.articles@[0].picurl == picurl,
    {
        let article = Article {
            title,
            description,
            url: "https://www.yuque.com/u68186/owc2wh/uxiqkm".to_string(),
            picurl,
        };
        let mut articles: Vec<Article> = Vec::new();
        articles.push(article);
        MessageInfo { msgtype: "news".to_string(), news: News { articles } }
    }
}

/// A day of the week.
#[derive(Debug, Clone, Copy, PartialEq, Eq)]
pub enum Weekday {
    Mon,
    Tue,
    Wed,
    Thu,
    Fri,
    Sat,
    Sun,
}

/// How a day of the week is shown on the card.
pub open spec fn weekday_text(d: Weekday) -> Seq<char> {
    match d {
        Weekday::Mon => "周一"@,
        Weekday::Tue => "周二"@,
        Weekday::Wed => "周三"@,
        Weekday::Thu => "周四"@,
        Weekday::Fri => "周五"@,
        Weekday::Sat => "周六"@,
        Weekday::Sun => "周日"@,
    }
}

impl Weekday {
    /// The label of this day on the card.
    pub fn label(&self) -> (r: &'static str)
        ensures
            r@ == weekday_text(*self),
    {
        match self {
            Weekday::Mon => "周一",
            Weekday::Tue => "周二",
            Weekday::Wed => "周三",
            Weekday::Thu => "周四",
            Weekday::Fri => "周五",
            Weekday::Sat => "周六",
            Weekday::Sun => "周日",
        }
    }
}

/// How the day is named on the card: the holiday's name on a holiday, else
/// the day of the week.
pub fn day_label(holiday: Option<&HolidayInfo>, weekday: Weekday) -> (r: String)
    ensures
        r@ == match holiday {
            Some(h) => h.name@,
            None => weekday_text(weekday),
        },
{
    match holiday {
        Some(h) => h.name.clone(),
        None => weekday.label().to_string(),
    }
}

/// The card's title: `{day} {weather} {temperature}°C`.
pub fn note_title(day: &str, weather: &str, temperature: &str) -> (r: String)
    ensures
        r@ == day@ + " "@ + weather@ + " "@ + temperature@ + "°C"@,
{
    day.to_string().concat(" ").concat(weather).concat(" ").concat(temperature).concat("°C")
}

/// The card's text: the note, then the poem of the day and its author.
pub fn note_description(note: &str, poetry: &str, author: &str) -> (r: String)
    ensures
        r@ == note@ + "\n\n今日诗句\n"@ + poetry@ + "\n---"@ + author@,
{
    note.to_string().concat("\n\n今日诗句\n").concat(poetry).concat("\n---").concat(author)
}

/// What the language model is asked for a caring note about `today`.
pub fn today_note_prompt(today: &str) -> (r: String)
    ensures
        r@ == "我告诉你今天的星期和天气，你根据生成一句关心我的话，内容可以稍微多一点，但是文字总数不能超多100字，工作日可以让我好好工作，周末了可以让我好好享受周末时光，如果周五了会很开心因为快放假了，语气要温柔可爱，语言中不需要再出现天气的内容，也不要叫我亲爱的。今天是"@
            + today@,
{
    "我告诉你今天的星期和天气，你根据生成一句关心我的话，内容可以稍微多一点，但是文字总数不能超多100字，工作日可以让我好好工作，周末了可以让我好好享受周末时光，如果周五了会很开心因为快放假了，语气要温柔可爱，语言中不需要再出现天气的内容，也不要叫我亲爱的。今天是".to_string().concat(
        today,
    )
}

} // verus!

use insightboard::widgets::{
    crypto_url, default_symbols, default_topic, github_url, news_url, require_api_key,
    status_targets, weather_url, CryptoQuery, GitHubQuery, NewsQuery, StatusQuery, WeatherQuery,
    GITHUB_TTL_SECONDS, NEWS_TTL_SECONDS, STATUS_TTL_SECONDS, WEATHER_TTL_SECONDS,
};
use insightboard::error::AppError;

#[test]
fn query_defaults() {
    assert_eq!(default_symbols(), "BTC,ETH");
    assert_eq!(default_topic(), "technology");
}

#[test]
fn provider_ttls() {
    assert_eq!(GITHUB_TTL_SECONDS, 300);
    assert_eq!(NEWS_TTL_SECONDS, 900);
    assert_eq!(WEATHER_TTL_SECONDS, 600);
    assert_eq!(STATUS_TTL_SECONDS, 120);
}

#[test]
fn crypto_url_lowercases_symbols() {
    let q = CryptoQuery { symbols: default_symbols() };
    assert_eq!(
        crypto_url(&q.symbols),
        "https://api.coingecko.com/api/v3/simple/price?ids=btc,eth\
         &vs_currencies=usd&include_24hr_change=true"
    );
}

#[test]
fn github_url_names_the_user() {
    let q = GitHubQuery { username: "octocat".to_string() };
    assert_eq!(
        github_url(&q.username),
        "https://api.github.com/users/octocat/events/public"
    );
}

#[test]
fn news_url_carries_topic_and_key() {
    let q = NewsQuery { topic: default_topic() };
    assert_eq!(
        news_url(&q.topic, "k123"),
        "https://newsapi.org/v2/everything?q=technology&apiKey=k123\
         &pageSize=10&sortBy=publishedAt"
    );
}

#[test]
fn weather_url_carries_city_and_key() {
    let q = WeatherQuery { city: "Berlin".to_string() };
    assert_eq!(
        weather_url(&q.city, "k456"),
        "https://api.openweathermap.org/data/2.5/weather?q=Berlin&appid=k456&units=metric"
    );
}

#[test]
fn missing_api_key_is_internal() {
    let some = Some("k".to_string());
    assert_eq!(require_api_key(&some, "NewsAPI key not configured").unwrap(), "k");
    let e = require_api_key(&None, "NewsAPI key not configured").unwrap_err();
    assert_eq!(e, AppError::Internal("NewsAPI key not configured".to_string()));
    assert_eq!(e.status_code(), 500);
    assert_eq!(e.client_message(), "Internal server error");
}

#[test]
fn status_targets_trim_and_drop_empties() {
    let q = StatusQuery { urls: " https://a.example , , b.example\t".to_string() };
    assert_eq!(status_targets(&q.urls), vec!["https://a.example", "b.example"]);
    assert_eq!(status_targets(""), Vec::<String>::new());
    assert_eq!(status_targets(" , ,,"), Vec::<String>::new());
    assert_eq!(status_targets("x"), vec!["x"]);
    assert_eq!(status_targets("a,b"), vec!["a", "b"]);
}
